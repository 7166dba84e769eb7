use pane_butler::butler::Butler;
use pane_butler::protocol::{Command, ErrorCode, Request, Response};
use pane_butler::workspace::{Pane, Tab};

fn pane(id: u32, tab: usize) -> Pane {
    Pane {
        id,
        tab,
        title: String::new(),
        command: None,
        is_plugin: false,
        exited: false,
        is_focused: false,
        is_floating: false,
        is_suppressed: false,
    }
}

fn tab(position: usize, name: &str, active: bool) -> Tab {
    Tab {
        position,
        name: name.to_string(),
        active,
        selectable_tiled_panes_count: 1,
        selectable_floating_panes_count: 0,
    }
}

fn ready_butler_with_workspace() -> Butler {
    let (mut b, _) = Butler::load(None, false, 0);
    let _ = b.handle_permission_result(true, 0);
    let _ = b.handle_tab_update(vec![tab(0, "main", true), tab(1, "logs", false)], 50);
    let _ = b.handle_pane_update(vec![pane(10, 0), pane(11, 1)], 100);
    b
}

fn failure_code(r: &Response) -> Option<ErrorCode> {
    match r {
        Response::Failure { code, .. } => Some(*code),
        _ => None,
    }
}

#[test]
fn ping_always_succeeds() {
    let (mut b, _) = Butler::load(None, false, 0);
    let (r, c) = b.handle_request(Ok(Request::Ping), 10);
    assert!(matches!(r, Response::Ack));
    assert!(c.is_empty());
}

#[test]
fn mutating_requests_are_gated_on_readiness() {
    let (mut b, _) = Butler::load(None, false, 0);
    let cases = vec![
        Request::RenameTab { position: 0, name: "x".to_string() },
        Request::RenamePane { pane_id: 1, name: "x".to_string() },
        Request::HidePane { pane_id: 1 },
        Request::ShowPane {
            pane_id: 1,
            should_float_if_hidden: None,
            should_focus_pane: None,
        },
    ];
    for req in cases {
        let (r, c) = b.handle_request(Ok(req), 10);
        assert_eq!(failure_code(&r), Some(ErrorCode::NotReady));
        assert!(c.is_empty(), "a not-ready request must issue no host command");
    }
}

#[test]
fn get_state_before_readiness_fails() {
    let (mut b, _) = Butler::load(None, false, 0);
    let (r, c) = b.handle_request(Ok(Request::GetState), 10);
    assert_eq!(failure_code(&r), Some(ErrorCode::NotReady));
    assert!(c.is_empty());
}

#[test]
fn get_state_without_snapshot_asks_for_one() {
    let (mut b, _) = Butler::load(None, false, 0);
    let _ = b.handle_permission_result(true, 0);
    let (r, c) = b.handle_request(Ok(Request::GetState), 10);
    assert_eq!(failure_code(&r), Some(ErrorCode::NotReady));
    assert_eq!(c.len(), 1);
    assert!(matches!(c[0], Command::RequestSnapshot));
}

#[test]
fn get_state_reports_the_workspace() {
    let mut b = ready_butler_with_workspace();
    let (r, c) = b.handle_request(Ok(Request::GetState), 200);
    assert!(c.is_empty());
    match r {
        Response::Workspace(w) => {
            assert_eq!(w.panes.len(), 2);
            assert_eq!(w.panes[0].id, 10);
            assert_eq!(w.panes[1].tab_index, 1);
            assert_eq!(w.tabs.len(), 2);
            assert_eq!(w.tabs[0].name, "main");
            assert!(w.tabs[0].active);
            assert!(w.runtime.ready);
            assert!(!w.runtime.pending_toggle);
            assert!(!w.runtime.awaiting_pane);
            assert_eq!(w.runtime.relocating_pane_id, None);
            assert_eq!(w.runtime.launch_command, "jelly-j");
        }
        _ => panic!("expected a workspace payload"),
    }
}

#[test]
fn invalid_request_carries_the_parse_error() {
    let (mut b, _) = Butler::load(None, false, 0);
    let (r, c) = b.handle_request(Err("unknown op".to_string()), 10);
    match r {
        Response::Failure { code, message } => {
            assert_eq!(code, ErrorCode::InvalidRequest);
            assert_eq!(message, "unknown op");
        }
        _ => panic!("expected an invalid-request failure"),
    }
    assert!(c.is_empty());
}

#[test]
fn rename_tab_checks_the_snapshot() {
    let mut b = ready_butler_with_workspace();
    let (r, c) = b.handle_request(
        Ok(Request::RenameTab { position: 1, name: "new".to_string() }),
        200,
    );
    assert!(matches!(r, Response::Ack));
    assert_eq!(c.len(), 1);
    match &c[0] {
        Command::RenameTab { position, name } => {
            assert_eq!(*position, 1);
            assert_eq!(name, "new");
        }
        _ => panic!("expected a rename-tab command"),
    }

    let (r2, c2) = b.handle_request(
        Ok(Request::RenameTab { position: 9, name: "new".to_string() }),
        300,
    );
    assert_eq!(failure_code(&r2), Some(ErrorCode::TabNotFound));
    assert!(c2.is_empty());
}

#[test]
fn pane_requests_check_the_snapshot() {
    let mut b = ready_butler_with_workspace();
    let (r, c) = b.handle_request(Ok(Request::HidePane { pane_id: 10 }), 200);
    assert!(matches!(r, Response::Ack));
    assert!(matches!(c[0], Command::HidePane { id: 10 }));

    let (r2, c2) = b.handle_request(Ok(Request::HidePane { pane_id: 99 }), 300);
    assert_eq!(failure_code(&r2), Some(ErrorCode::PaneNotFound));
    assert!(c2.is_empty());
}

#[test]
fn exited_pane_counts_as_not_found() {
    let (mut b, _) = Butler::load(None, false, 0);
    let _ = b.handle_permission_result(true, 0);
    let mut dead = pane(10, 0);
    dead.exited = true;
    let _ = b.handle_pane_update(vec![dead], 100);
    let (r, c) = b.handle_request(Ok(Request::HidePane { pane_id: 10 }), 200);
    assert_eq!(failure_code(&r), Some(ErrorCode::PaneNotFound));
    assert!(c.is_empty());
}

#[test]
fn show_pane_defaults_to_floating_and_focused() {
    let mut b = ready_butler_with_workspace();
    let (r, c) = b.handle_request(
        Ok(Request::ShowPane {
            pane_id: 11,
            should_float_if_hidden: None,
            should_focus_pane: Some(false),
        }),
        200,
    );
    assert!(matches!(r, Response::Ack));
    assert!(matches!(
        c[0],
        Command::ShowPane { id: 11, float_if_hidden: true, focus: false }
    ));
}

#[test]
fn get_trace_and_clear_trace() {
    let mut b = ready_butler_with_workspace();
    let (r, c) = b.handle_request(Ok(Request::GetTrace { limit: Some(2) }), 200);
    assert!(c.is_empty());
    match r {
        Response::TraceEntries(es) => {
            assert_eq!(es.len(), 2);
            assert!(es[0].seq < es[1].seq, "entries come oldest first");
        }
        _ => panic!("expected trace entries"),
    }
    let (r2, _) = b.handle_request(Ok(Request::ClearTrace), 300);
    assert!(matches!(r2, Response::Ack));
    let (r3, _) = b.handle_request(Ok(Request::GetTrace { limit: None }), 400);
    match r3 {
        Response::TraceEntries(es) => assert!(es.is_empty()),
        _ => panic!("expected trace entries"),
    }
}
