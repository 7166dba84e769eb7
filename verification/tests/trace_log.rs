use pane_butler::trace::TraceLog;

#[test]
fn trace_assigns_sequence_numbers_and_deltas() {
    let mut t = TraceLog::new();
    t.append(1000, "first".to_string());
    t.append(1250, "second".to_string());
    let all = t.snapshot(None);
    assert_eq!(all.len(), 2);
    assert_eq!(all[0].seq, 1);
    assert_eq!(all[0].delta_ms, 0);
    assert_eq!(all[0].message, "first");
    assert_eq!(all[1].seq, 2);
    assert_eq!(all[1].delta_ms, 250);
}

#[test]
fn trace_bound_evicts_oldest_fifo() {
    let mut t = TraceLog::new();
    for i in 0..205u64 {
        t.append(1000 + i as u128, format!("entry {}", i));
    }
    let all = t.snapshot(None);
    assert_eq!(all.len(), 200);
    // The first five entries were evicted, oldest first.
    assert_eq!(all[0].seq, 6);
    assert_eq!(all[0].message, "entry 5");
    assert_eq!(all[199].seq, 205);
    assert_eq!(all[199].message, "entry 204");
}

#[test]
fn trace_snapshot_limit_returns_most_recent_oldest_first() {
    let mut t = TraceLog::new();
    for i in 0..10u64 {
        t.append(i as u128, format!("m{}", i));
    }
    let last3 = t.snapshot(Some(3));
    assert_eq!(last3.len(), 3);
    assert_eq!(last3[0].message, "m7");
    assert_eq!(last3[1].message, "m8");
    assert_eq!(last3[2].message, "m9");
    // A limit larger than what is stored returns everything.
    let over = t.snapshot(Some(50));
    assert_eq!(over.len(), 10);
}

#[test]
fn trace_clear_keeps_sequence_counter() {
    let mut t = TraceLog::new();
    t.append(0, "a".to_string());
    t.append(1, "b".to_string());
    t.clear();
    assert_eq!(t.len(), 0);
    t.append(2, "c".to_string());
    let all = t.snapshot(None);
    assert_eq!(all.len(), 1);
    assert_eq!(all[0].seq, 3);
}
