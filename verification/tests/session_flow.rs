use pane_butler::butler::Butler;
use pane_butler::identity::companion_title_str;
use pane_butler::protocol::Command;
use pane_butler::session::Session;
use pane_butler::workspace::Pane;

fn pane(id: u32, tab: usize) -> Pane {
    Pane {
        id,
        tab,
        title: String::new(),
        command: None,
        is_plugin: false,
        exited: false,
        is_focused: false,
        is_floating: false,
        is_suppressed: false,
    }
}

fn companion(id: u32, tab: usize) -> Pane {
    let mut p = pane(id, tab);
    p.title = companion_title_str().to_string();
    p
}

fn ready_butler() -> Butler {
    let (mut b, _) = Butler::load(None, false, 0);
    let _ = b.handle_permission_result(true, 0);
    b
}

fn relocating_pane_id(b: &Butler) -> Option<u32> {
    match &b.session {
        Session::Relocating { pane_id, .. } => Some(*pane_id),
        _ => None,
    }
}

#[test]
fn cross_tab_relocation_ends_visible_floating_in_target() {
    let mut b = ready_butler();
    let mut focused = pane(1, 1);
    focused.is_focused = true;
    let _ = b.handle_pane_update(vec![companion(9, 0), focused.clone()], 100);

    // The companion lives only in tab 0; the caller is in tab 1.
    let (_, cmds) = b.handle_toggle(1000, None);
    assert!(matches!(
        cmds[cmds.len() - 1],
        Command::MovePaneToTab { id: 9, tab: 1, clear_focus: false }
    ));
    assert_eq!(relocating_pane_id(&b), Some(9));

    // The move has not taken effect yet: the session just waits.
    let c = b.handle_pane_update(vec![companion(9, 0), focused.clone()], 2000);
    assert!(c.is_empty());
    assert_eq!(relocating_pane_id(&b), Some(9));

    // It arrives in the target tab, tiled: suppress it first.
    let c = b.handle_pane_update(vec![companion(9, 1), focused.clone()], 3000);
    assert_eq!(c.len(), 1);
    assert!(matches!(c[0], Command::HidePane { id: 9 }));
    assert_eq!(relocating_pane_id(&b), Some(9));

    // A snapshot confirms the suppression: reveal it floating and focused.
    let mut suppressed = companion(9, 1);
    suppressed.is_suppressed = true;
    let c = b.handle_pane_update(vec![suppressed, focused.clone()], 4000);
    assert_eq!(c.len(), 1);
    assert!(matches!(
        c[0],
        Command::ShowPane { id: 9, float_if_hidden: true, focus: true }
    ));
    assert!(matches!(b.session, Session::Idle));
}

#[test]
fn relocation_reveals_directly_when_pane_arrives_floating() {
    let mut b = ready_butler();
    let mut focused = pane(1, 1);
    focused.is_focused = true;
    let _ = b.handle_pane_update(vec![companion(9, 0), focused.clone()], 100);
    let (_, _) = b.handle_toggle(1000, None);
    assert_eq!(relocating_pane_id(&b), Some(9));

    let mut arrived = companion(9, 1);
    arrived.is_floating = true;
    let c = b.handle_pane_update(vec![arrived, focused], 2000);
    assert_eq!(c.len(), 1);
    assert!(matches!(
        c[0],
        Command::ShowPane { id: 9, float_if_hidden: true, focus: true }
    ));
    assert!(matches!(b.session, Session::Idle));
}

#[test]
fn relocation_abandons_after_budget() {
    let mut b = ready_butler();
    let mut focused = pane(1, 1);
    focused.is_focused = true;
    let _ = b.handle_pane_update(vec![companion(9, 0), focused], 100);
    let (_, _) = b.handle_toggle(1000, None);
    assert_eq!(relocating_pane_id(&b), Some(9));

    // The pane never shows up again; the session must reach idle on its own.
    let mut t: u128 = 2000;
    for _ in 0..1201 {
        let c = b.handle_pane_update(vec![], t);
        assert!(c.is_empty());
        t += 10;
    }
    assert!(matches!(b.session, Session::Idle));
}

#[test]
fn creation_binds_new_floating_pane_in_target_tab() {
    let mut b = ready_butler();
    let mut focused = pane(1, 2);
    focused.is_focused = true;
    let _ = b.handle_pane_update(vec![focused.clone()], 100);
    let (_, cmds) = b.handle_toggle(1000, None);
    assert!(matches!(cmds[0], Command::LaunchPane { .. }));
    assert!(matches!(b.session, Session::AwaitingCreation { .. }));

    // A new, unseen floating pane appears in the target tab: bind it.
    let mut fresh = pane(42, 2);
    fresh.is_floating = true;
    let c = b.handle_pane_update(vec![focused, fresh], 2000);
    assert_eq!(c.len(), 2);
    match &c[0] {
        Command::RenamePane { id, name } => {
            assert_eq!(*id, 42);
            assert_eq!(name, companion_title_str());
        }
        _ => panic!("expected a rename command first"),
    }
    assert!(matches!(
        c[1],
        Command::ShowPane { id: 42, float_if_hidden: true, focus: true }
    ));
    assert!(matches!(b.session, Session::Idle));
}

#[test]
fn creation_types_command_when_launch_is_not_atomic() {
    let (mut b, _) = Butler::load(None, true, 0);
    let _ = b.handle_permission_result(true, 0);
    let mut focused = pane(1, 0);
    focused.is_focused = true;
    let _ = b.handle_pane_update(vec![focused.clone()], 100);
    let (_, _) = b.handle_toggle(1000, None);
    let mut fresh = pane(42, 0);
    fresh.is_floating = true;
    let c = b.handle_pane_update(vec![focused, fresh], 2000);
    assert_eq!(c.len(), 3);
    assert!(matches!(c[0], Command::RenamePane { .. }));
    match &c[1] {
        Command::WriteToPane { id, text } => {
            assert_eq!(*id, 42);
            assert_eq!(text, "jelly-j");
        }
        _ => panic!("expected the launch command to be typed in"),
    }
    assert!(matches!(c[2], Command::ShowPane { id: 42, .. }));
}

#[test]
fn creation_relaxes_to_tiled_pane_only_after_a_few_snapshots() {
    let mut b = ready_butler();
    let mut focused = pane(1, 2);
    focused.is_focused = true;
    let _ = b.handle_pane_update(vec![focused.clone()], 100);
    let (_, _) = b.handle_toggle(1000, None);

    // A new pane in the target tab, but tiled: not accepted right away.
    let fresh = pane(43, 2);
    let mut t: u128 = 2000;
    for _ in 0..4 {
        let c = b.handle_pane_update(vec![focused.clone(), fresh.clone()], t);
        assert!(c.is_empty());
        assert!(matches!(b.session, Session::AwaitingCreation { .. }));
        t += 10;
    }
    // By the fifth snapshot the filter has relaxed to any pane in the tab.
    let c = b.handle_pane_update(vec![focused, fresh], t);
    assert!(c.iter().any(|x| matches!(x, Command::RenamePane { id: 43, .. })));
    assert!(matches!(b.session, Session::Idle));
}

#[test]
fn creation_moves_pane_that_appeared_in_wrong_tab() {
    let mut b = ready_butler();
    let mut focused = pane(1, 2);
    focused.is_focused = true;
    let _ = b.handle_pane_update(vec![focused.clone()], 100);
    let (_, _) = b.handle_toggle(1000, None);

    // The new floating companion-matching pane appeared in tab 0, not 2:
    // move it there and hand over to a relocation session; no reveal yet.
    let mut fresh = pane(44, 0);
    fresh.is_floating = true;
    fresh.command = Some("jelly-j".to_string());
    let c = b.handle_pane_update(vec![focused, fresh], 2000);
    assert!(matches!(
        c[0],
        Command::MovePaneToTab { id: 44, tab: 2, clear_focus: false }
    ));
    assert!(matches!(c[1], Command::RenamePane { id: 44, .. }));
    assert!(!c.iter().any(|x| matches!(x, Command::ShowPane { .. })));
    assert_eq!(relocating_pane_id(&b), Some(44));
}

#[test]
fn creation_abandons_after_budget() {
    let mut b = ready_butler();
    let mut focused = pane(1, 2);
    focused.is_focused = true;
    let _ = b.handle_pane_update(vec![focused.clone()], 100);
    let (_, _) = b.handle_toggle(1000, None);
    assert!(matches!(b.session, Session::AwaitingCreation { .. }));

    let mut t: u128 = 2000;
    for _ in 0..1201 {
        let c = b.handle_pane_update(vec![focused.clone()], t);
        assert!(c.is_empty());
        t += 10;
    }
    assert!(matches!(b.session, Session::Idle));
}

#[test]
fn pending_toggle_is_honored_once_the_session_settles() {
    let mut b = ready_butler();
    let mut focused = pane(1, 1);
    focused.is_focused = true;
    let _ = b.handle_pane_update(vec![companion(9, 0), focused.clone()], 100);
    let (_, _) = b.handle_toggle(1000, None);
    assert_eq!(relocating_pane_id(&b), Some(9));

    // A toggle arriving during the session is queued, not lost.
    let (_, c) = b.handle_toggle(2000, None);
    assert!(c.is_empty());
    assert!(b.pending_toggle);

    // The session settles on this snapshot; the queued toggle runs in the
    // same evaluation and hides the now-visible companion.
    let mut arrived = companion(9, 1);
    arrived.is_floating = true;
    let c = b.handle_pane_update(vec![arrived, focused], 3000);
    assert!(matches!(b.session, Session::Idle));
    assert!(!b.pending_toggle);
    assert!(matches!(c[0], Command::ShowPane { id: 9, .. }));
    // The queued toggle then acted on the same companion.
    assert!(matches!(c[c.len() - 1], Command::HidePane { id: 9 }));
}
