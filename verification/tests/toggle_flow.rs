use pane_butler::butler::Butler;
use pane_butler::identity::companion_title_str;
use pane_butler::protocol::{Command, Response};
use pane_butler::session::Session;
use pane_butler::workspace::{Pane, Tab};

fn pane(id: u32, tab: usize) -> Pane {
    Pane {
        id,
        tab,
        title: String::new(),
        command: None,
        is_plugin: false,
        exited: false,
        is_focused: false,
        is_floating: false,
        is_suppressed: false,
    }
}

fn companion(id: u32, tab: usize) -> Pane {
    let mut p = pane(id, tab);
    p.title = companion_title_str().to_string();
    p
}

fn ready_butler() -> Butler {
    let (mut b, _) = Butler::load(None, false, 0);
    let _ = b.handle_permission_result(true, 0);
    b
}

#[test]
fn toggle_within_window_is_a_single_transition() {
    let (mut b, _) = Butler::load(None, false, 0);
    let (r1, c1) = b.handle_toggle(1000, None);
    assert!(matches!(r1, Response::Ack));
    assert!(c1.is_empty());
    assert!(b.pending_toggle);
    // 80 ms later: absorbed as a successful no-op, nothing changes.
    let (r2, c2) = b.handle_toggle(1080, None);
    assert!(matches!(r2, Response::AckDedupWindow));
    assert!(c2.is_empty());
    assert_eq!(b.last_toggle_epoch_ms, Some(1000));
}

#[test]
fn toggle_with_repeated_caller_identity_is_suppressed() {
    let (mut b, _) = Butler::load(None, false, 0);
    let (r1, _) = b.handle_toggle(1000, Some("pipe-1".to_string()));
    assert!(matches!(r1, Response::Ack));
    let (r2, c2) = b.handle_toggle(3000, Some("pipe-1".to_string()));
    assert!(matches!(r2, Response::AckDuplicate));
    assert!(c2.is_empty());
    // A different identity is accepted again.
    let (r3, _) = b.handle_toggle(5000, Some("pipe-2".to_string()));
    assert!(matches!(r3, Response::Ack));
}

#[test]
fn toggle_before_readiness_issues_no_command() {
    let (mut b, _) = Butler::load(None, false, 0);
    let (r, c) = b.handle_toggle(1000, None);
    assert!(matches!(r, Response::Ack));
    assert!(c.is_empty());
    // The intent is kept for later, not lost.
    assert!(b.pending_toggle);
}

#[test]
fn toggle_hides_then_reveals_the_companion() {
    let mut b = ready_butler();
    let mut comp = companion(7, 0);
    comp.is_focused = true;
    let mut other = pane(8, 0);
    other.is_focused = false;
    let _ = b.handle_pane_update(vec![comp, other], 100);

    // Visible and focused in the caller's tab: one toggle hides it, shifting
    // focus to the other pane in the tab first.
    let (r1, c1) = b.handle_toggle(1000, None);
    assert!(matches!(r1, Response::Ack));
    assert!(matches!(c1[0], Command::FocusPane { id: 8 }));
    assert!(matches!(c1[c1.len() - 1], Command::HidePane { id: 7 }));
    assert!(matches!(b.session, Session::Idle));

    // The host applies the hide; the next snapshot shows it suppressed.
    let mut hidden = companion(7, 0);
    hidden.is_suppressed = true;
    let mut other2 = pane(8, 0);
    other2.is_focused = true;
    let _ = b.handle_pane_update(vec![hidden, other2], 2000);

    // Hidden in the caller's tab: one toggle reveals it floating and focused.
    let (r2, c2) = b.handle_toggle(3000, None);
    assert!(matches!(r2, Response::Ack));
    assert_eq!(c2.len(), 1);
    assert!(matches!(
        c2[0],
        Command::ShowPane { id: 7, float_if_hidden: true, focus: true }
    ));
    assert!(matches!(b.session, Session::Idle));
}

#[test]
fn duplicate_companions_are_destroyed_keeping_the_tracked_one() {
    let mut b = ready_butler();
    let mut other = pane(1, 0);
    other.is_focused = true;
    // Two companions; the first seen one (id 7) becomes the tracked one.
    let manifest = vec![companion(7, 0), companion(8, 0), other];
    let _ = b.handle_pane_update(manifest, 100);
    assert_eq!(b.sticky_pane_id, Some(7));

    let (_, cmds) = b.handle_toggle(1000, None);
    let closes_8 = cmds
        .iter()
        .any(|c| matches!(c, Command::ClosePane { id: 8 }));
    let closes_7 = cmds
        .iter()
        .any(|c| matches!(c, Command::ClosePane { id: 7 }));
    assert!(closes_8, "the duplicate companion must be destroyed");
    assert!(!closes_7, "the tracked companion must be kept");
    // The kept one is visible in the caller's tab, so it is hidden.
    assert!(matches!(cmds[cmds.len() - 1], Command::HidePane { id: 7 }));
}

#[test]
fn toggle_launches_when_no_companion_exists() {
    let mut b = ready_butler();
    let mut other = pane(1, 2);
    other.is_focused = true;
    let _ = b.handle_pane_update(vec![other], 100);
    assert_eq!(b.sticky_pane_id, None);

    let (r, cmds) = b.handle_toggle(1000, None);
    assert!(matches!(r, Response::Ack));
    assert_eq!(cmds.len(), 1);
    match &cmds[0] {
        Command::LaunchPane { path, title, command, floating } => {
            assert_eq!(path, ".");
            assert_eq!(title, companion_title_str());
            assert_eq!(command, "jelly-j");
            assert!(*floating);
        }
        _ => panic!("expected a launch command"),
    }
    match &b.session {
        Session::AwaitingCreation { target_tab, updates, write_pending, known_ids } => {
            assert_eq!(*target_tab, Some(2));
            assert_eq!(*updates, 0);
            assert!(!*write_pending);
            assert_eq!(known_ids.as_slice(), &[1]);
        }
        _ => panic!("expected a creation session"),
    }
}

#[test]
fn toggle_reveals_remembered_companion_on_stale_snapshot() {
    let mut b = ready_butler();
    let _ = b.handle_pane_update(vec![companion(7, 0)], 100);
    assert_eq!(b.sticky_pane_id, Some(7));
    // The next snapshot momentarily omits the companion, within the grace
    // period: the remembered id is revealed instead of launching a new one.
    let _ = b.handle_pane_update(vec![], 600);
    assert_eq!(b.sticky_pane_id, Some(7));
    let (_, cmds) = b.handle_toggle(1000, None);
    assert_eq!(cmds.len(), 1);
    assert!(matches!(
        cmds[0],
        Command::ShowPane { id: 7, float_if_hidden: true, focus: true }
    ));
}

#[test]
fn remembered_companion_expires_after_grace_period() {
    let mut b = ready_butler();
    let _ = b.handle_pane_update(vec![companion(7, 0)], 100);
    assert_eq!(b.sticky_pane_id, Some(7));
    // Still missing well past the grace period: forget it.
    let _ = b.handle_pane_update(vec![], 5000);
    assert_eq!(b.sticky_pane_id, None);
    // The next toggle launches a fresh companion.
    let (_, cmds) = b.handle_toggle(6000, None);
    assert!(matches!(cmds[0], Command::LaunchPane { .. }));
}

#[test]
fn permission_denial_is_terminal() {
    let (mut b, _) = Butler::load(None, false, 0);
    let r = b.handle_permission_result(false, 10);
    assert!(r.is_empty());
    assert!(!b.ready);
    assert!(b.permission_denied);
    // A snapshot arriving later must not re-open the guard by inference.
    let _ = b.handle_pane_update(vec![pane(1, 0)], 20);
    assert!(!b.ready);
}

#[test]
fn readiness_inferred_from_snapshot_without_result() {
    let (mut b, _) = Butler::load(None, false, 0);
    assert!(!b.ready);
    let _ = b.handle_pane_update(vec![pane(1, 0)], 20);
    assert!(b.ready, "a usable snapshot while undecided implies a missed grant");
}

#[test]
fn grant_requests_a_fresh_snapshot() {
    let (mut b, _) = Butler::load(None, false, 0);
    let r = b.handle_permission_result(true, 10);
    assert!(matches!(r[0], Command::RequestSnapshot));
    assert!(b.ready);
}

#[test]
fn configured_launch_command_drives_matching() {
    let (mut b, _) = Butler::load(Some("my-tool --serve".to_string()), false, 0);
    let _ = b.handle_permission_result(true, 0);
    assert_eq!(b.launch_command, "my-tool --serve");
    assert_eq!(b.launch_token, "my-tool");
    // A pane whose command contains only the leading token still matches.
    let mut p = pane(4, 0);
    p.command = Some("sh -c my-tool".to_string());
    let _ = b.handle_pane_update(vec![p], 100);
    assert_eq!(b.sticky_pane_id, Some(4));
}

#[test]
fn empty_configured_command_falls_back_to_default() {
    let (b, _) = Butler::load(Some(String::new()), false, 0);
    assert_eq!(b.launch_command, "jelly-j");
    assert_eq!(b.launch_token, "jelly-j");
}

#[test]
fn load_asks_for_subscription_authorization_and_snapshot() {
    let (_, cmds) = Butler::load(None, false, 0);
    assert_eq!(cmds.len(), 3);
    assert!(matches!(cmds[0], Command::SubscribeToEvents));
    assert!(matches!(cmds[1], Command::RequestAuthorization));
    assert!(matches!(cmds[2], Command::RequestSnapshot));
}

#[test]
fn toggle_waits_for_a_snapshot() {
    let (mut b, _) = Butler::load(None, false, 0);
    let _ = b.handle_permission_result(true, 0);
    // Ready, but no snapshot has arrived yet: the intent is queued.
    let (r, c) = b.handle_toggle(1000, None);
    assert!(matches!(r, Response::Ack));
    assert!(c.is_empty());
    assert!(b.pending_toggle);
    // The first snapshot delivers it: no companion anywhere, so launch.
    let cmds = b.handle_pane_update(vec![], 2000);
    assert!(!b.pending_toggle);
    assert!(matches!(cmds[0], Command::LaunchPane { .. }));
}

#[test]
fn tab_update_also_delivers_a_queued_toggle() {
    let (mut b, _) = Butler::load(None, false, 0);
    let _ = b.handle_permission_result(true, 0);
    let _ = b.handle_pane_update(vec![], 100);
    // Queue a toggle while a creation session is in flight.
    let (_, c0) = b.handle_toggle(1000, None);
    assert!(matches!(c0[0], Command::LaunchPane { .. }));
    let (_, c1) = b.handle_toggle(2000, None);
    assert!(c1.is_empty());
    assert!(b.pending_toggle);
    // Tab updates do not advance sessions, so the toggle stays queued.
    let c2 = b.handle_tab_update(
        vec![Tab {
            position: 0,
            name: "main".to_string(),
            active: true,
            selectable_tiled_panes_count: 0,
            selectable_floating_panes_count: 0,
        }],
        3000,
    );
    assert!(c2.is_empty());
    assert!(b.pending_toggle);
}
