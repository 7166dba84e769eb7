//! Structured requests: each yields exactly one response, synchronously,
//! before the triggering call returns — a success envelope or a typed
//! failure. All mutating requests are gated on readiness, and a request
//! naming an absent tab or pane gets a typed not-found failure, never
//! silence.
use vstd::prelude::*;
use crate::butler::Butler;
use crate::identity::{find_pane_by_id, pane_with_id_at};
use crate::protocol::{
    Command, ErrorCode, PaneStatePayload, Request, Response, RuntimeStatePayload, TabStatePayload,
    WorkspaceStatePayload,
};
use crate::session::Session;
use crate::workspace::{Pane, Tab};

verus! {

/// The snapshot knows a tab at this position.
pub open spec fn tab_position_exists(tabs: Option<Vec<Tab>>, position: usize) -> bool {
    tabs matches Some(ts) && exists|j: int| 0 <= j < ts@.len() && ts@[j].position == position
}

/// The snapshot knows a usable (not exited, not plugin) pane with this id.
pub open spec fn usable_pane_exists(panes: Option<Vec<Pane>>, id: u32) -> bool {
    panes matches Some(m) && exists|i: int| 0 <= i < m@.len() && pane_with_id_at(m@, i, id)
}

/// A request that asks the host to mutate the workspace.
pub open spec fn is_mutating_request(req: Request) -> bool {
    ||| req is RenameTab
    ||| req is RenamePane
    ||| req is HidePane
    ||| req is ShowPane
}

pub open spec fn pane_payload_matches(p: Pane, w: PaneStatePayload) -> bool {
    &&& w.id == p.id
    &&& w.tab_index == p.tab
    &&& w.title == p.title
    &&& w.terminal_command == p.command
    &&& w.is_plugin == p.is_plugin
    &&& w.is_focused == p.is_focused
    &&& w.is_floating == p.is_floating
    &&& w.is_suppressed == p.is_suppressed
    &&& w.exited == p.exited
}

pub open spec fn tab_payload_matches(t: Tab, w: TabStatePayload) -> bool {
    &&& w.position == t.position
    &&& w.name == t.name
    &&& w.active == t.active
    &&& w.selectable_tiled_panes_count == t.selectable_tiled_panes_count
    &&& w.selectable_floating_panes_count == t.selectable_floating_panes_count
}

pub open spec fn runtime_payload_matches(b: Butler, w: RuntimeStatePayload) -> bool {
    &&& w.ready == b.ready
    &&& w.permission_result_seen == b.permission_result_seen
    &&& w.permission_denied == b.permission_denied
    &&& w.pending_toggle == b.pending_toggle
    &&& w.awaiting_pane == (b.session is AwaitingCreation)
    &&& w.awaiting_tab == (match b.session {
        Session::AwaitingCreation { target_tab, .. } => target_tab,
        _ => None,
    })
    &&& w.awaiting_updates == (match b.session {
        Session::AwaitingCreation { updates, .. } => updates,
        _ => 0u16,
    })
    &&& w.awaiting_write_to_new_pane == (match b.session {
        Session::AwaitingCreation { write_pending, .. } => write_pending,
        _ => false,
    })
    &&& w.known_terminal_ids == (match b.session {
        Session::AwaitingCreation { known_ids, .. } => known_ids@.len(),
        _ => 0,
    })
    &&& w.relocating_pane_id == (match b.session {
        Session::Relocating { pane_id, .. } => Some(pane_id),
        _ => None,
    })
    &&& w.relocating_target_tab == (match b.session {
        Session::Relocating { target_tab, .. } => Some(target_tab),
        _ => None,
    })
    &&& w.relocating_waiting_for_suppressed == (match b.session {
        Session::Relocating { waiting_for_suppressed, .. } => waiting_for_suppressed,
        _ => false,
    })
    &&& w.relocating_updates == (match b.session {
        Session::Relocating { updates, .. } => updates,
        _ => 0u16,
    })
    &&& w.pane_update_count == b.pane_update_count
    &&& w.tab_update_count == b.tab_update_count
    &&& w.trace_len == b.trace.entries@.len()
    &&& w.last_cli_toggle_pipe_id == b.last_cli_toggle_id
    &&& w.launch_command == b.launch_command
}

/// The whole full-state report reflects the state it was taken from.
pub open spec fn workspace_payload_ok(b: Butler, w: WorkspaceStatePayload) -> bool {
    &&& b.panes matches Some(m) && w.panes@.len() == m@.len() && (forall|i: int|
        0 <= i < m@.len() ==> pane_payload_matches(m@[i], #[trigger] w.panes@[i]))
    &&& (match b.tabs {
        Some(ts) => w.tabs@.len() == ts@.len() && (forall|j: int|
            0 <= j < ts@.len() ==> tab_payload_matches(ts@[j], #[trigger] w.tabs@[j])),
        None => w.tabs@.len() == 0,
    })
    &&& runtime_payload_matches(b, w.runtime)
}

/// What executing one structured request does: the state is untouched apart
/// from the trace, every answer is exactly one envelope, mutating requests
/// are gated on readiness, and a not-found is a typed failure.
pub open spec fn execute_request_post(
    pre: Butler,
    post: Butler,
    req: Request,
    resp: Response,
    cmds: Seq<Command>,
) -> bool {
    &&& post.same_but_trace(pre)
    &&& (match req {
        Request::Ping => resp is Ack && cmds == Seq::<Command>::empty(),
        Request::GetState => {
            if !pre.ready {
                resp.is_failure_with(ErrorCode::NotReady) && cmds == Seq::<Command>::empty()
            } else if pre.panes is None {
                // The cache is not warm yet: fail, but ask for a snapshot.
                resp.is_failure_with(ErrorCode::NotReady) && cmds == seq![Command::RequestSnapshot]
            } else {
                cmds == Seq::<Command>::empty() && (resp matches Response::Workspace(w)
                    && workspace_payload_ok(pre, w))
            }
        },
        Request::GetTrace { limit } => {
            &&& cmds == Seq::<Command>::empty()
            &&& (resp matches Response::TraceEntries(es) && {
                let len = pre.trace.entries@.len() as int;
                let wanted: int = match limit {
                    Some(l) => if l < len {
                        l as int
                    } else {
                        len
                    },
                    None => len,
                };
                es@ == pre.trace.entries@.subrange(len - wanted, len)
            })
        },
        Request::ClearTrace => resp is Ack && cmds == Seq::<Command>::empty()
            && post.trace.entries@.len() == 0,
        Request::RenameTab { position, name } => {
            if !pre.ready {
                resp.is_failure_with(ErrorCode::NotReady) && cmds == Seq::<Command>::empty()
            } else if tab_position_exists(pre.tabs, position) {
                resp is Ack && cmds == seq![(Command::RenameTab { position, name })]
            } else {
                resp.is_failure_with(ErrorCode::TabNotFound) && cmds == Seq::<Command>::empty()
            }
        },
        Request::RenamePane { pane_id, name } => {
            if !pre.ready {
                resp.is_failure_with(ErrorCode::NotReady) && cmds == Seq::<Command>::empty()
            } else if usable_pane_exists(pre.panes, pane_id) {
                resp is Ack && cmds == seq![(Command::RenamePane { id: pane_id, name })]
            } else {
                resp.is_failure_with(ErrorCode::PaneNotFound) && cmds == Seq::<Command>::empty()
            }
        },
        Request::HidePane { pane_id } => {
            if !pre.ready {
                resp.is_failure_with(ErrorCode::NotReady) && cmds == Seq::<Command>::empty()
            } else if usable_pane_exists(pre.panes, pane_id) {
                resp is Ack && cmds == seq![(Command::HidePane { id: pane_id })]
            } else {
                resp.is_failure_with(ErrorCode::PaneNotFound) && cmds == Seq::<Command>::empty()
            }
        },
        Request::ShowPane { pane_id, should_float_if_hidden, should_focus_pane } => {
            if !pre.ready {
                resp.is_failure_with(ErrorCode::NotReady) && cmds == Seq::<Command>::empty()
            } else if usable_pane_exists(pre.panes, pane_id) {
                resp is Ack && cmds == seq![
                    (Command::ShowPane {
                        id: pane_id,
                        float_if_hidden: (match should_float_if_hidden {
                            Some(v) => v,
                            None => true,
                        }),
                        focus: (match should_focus_pane {
                            Some(v) => v,
                            None => true,
                        }),
                    }),
                ]
            } else {
                resp.is_failure_with(ErrorCode::PaneNotFound) && cmds == Seq::<Command>::empty()
            }
        },
    })
}

/// Does the tab listing know this position?
fn tab_exists(tabs: &Option<Vec<Tab>>, position: usize) -> (r: bool)
    ensures
        r == tab_position_exists(*tabs, position),
{
    match tabs {
        Some(ts) => {
            let mut j: usize = 0;
            while j < ts.len()
                invariant
                    tabs is Some && tabs->0 == *ts,
                    0 <= j <= ts@.len(),
                    forall|k: int| 0 <= k < j ==> ts@[k].position != position,
                decreases ts@.len() - j,
            {
                if ts[j].position == position {
                    return true;
                }
                j += 1;
            }
            false
        },
        None => false,
    }
}

/// Does the snapshot hold a usable pane with this id?
fn usable_pane_found(panes: &Option<Vec<Pane>>, id: u32) -> (r: bool)
    ensures
        r == usable_pane_exists(*panes, id),
{
    match panes {
        Some(m) => find_pane_by_id(m, id).is_some(),
        None => false,
    }
}

impl Butler {
    /// Build the full-state report, if a snapshot has arrived at all.
    pub fn workspace_state_snapshot(&self) -> (r: Option<WorkspaceStatePayload>)
        ensures
            r is Some <==> self.panes is Some,
            r matches Some(w) ==> workspace_payload_ok(*self, w),
    {
        let m = match &self.panes {
            Some(m) => m,
            None => {
                return None;
            },
        };
        let mut panes: Vec<PaneStatePayload> = Vec::new();
        let mut i: usize = 0;
        while i < m.len()
            invariant
                self.panes is Some && self.panes->0 == *m,
                0 <= i <= m@.len(),
                panes@.len() == i,
                forall|k: int| 0 <= k < i ==> pane_payload_matches(m@[k], #[trigger] panes@[k]),
            decreases m@.len() - i,
        {
            let p = &m[i];
            panes.push(
                PaneStatePayload {
                    id: p.id,
                    tab_index: p.tab,
                    title: p.title.clone(),
                    terminal_command: match &p.command {
                        Some(c) => Some(c.clone()),
                        None => None,
                    },
                    is_plugin: p.is_plugin,
                    is_focused: p.is_focused,
                    is_floating: p.is_floating,
                    is_suppressed: p.is_suppressed,
                    exited: p.exited,
                },
            );
            i += 1;
        }
        let mut tabs: Vec<TabStatePayload> = Vec::new();
        match &self.tabs {
            Some(ts) => {
                let mut j: usize = 0;
                while j < ts.len()
                    invariant
                        self.tabs is Some && self.tabs->0 == *ts,
                        0 <= j <= ts@.len(),
                        tabs@.len() == j,
                        forall|k: int|
                            0 <= k < j ==> tab_payload_matches(ts@[k], #[trigger] tabs@[k]),
                    decreases ts@.len() - j,
                {
                    let t = &ts[j];
                    tabs.push(
                        TabStatePayload {
                            position: t.position,
                            name: t.name.clone(),
                            active: t.active,
                            selectable_tiled_panes_count: t.selectable_tiled_panes_count,
                            selectable_floating_panes_count: t.selectable_floating_panes_count,
                        },
                    );
                    j += 1;
                }
            },
            None => {},
        }
        let (awaiting_pane, awaiting_tab, awaiting_updates, awaiting_write, known_len) =
            match &self.session {
            Session::AwaitingCreation { target_tab, updates, write_pending, known_ids } => (
                true,
                *target_tab,
                *updates,
                *write_pending,
                known_ids.len(),
            ),
            _ => (false, None, 0u16, false, 0usize),
        };
        let (reloc_id, reloc_tab, reloc_waiting, reloc_updates) = match &self.session {
            Session::Relocating { pane_id, target_tab, waiting_for_suppressed, updates } => (
                Some(*pane_id),
                Some(*target_tab),
                *waiting_for_suppressed,
                *updates,
            ),
            _ => (None, None, false, 0u16),
        };
        let runtime = RuntimeStatePayload {
            ready: self.ready,
            permission_result_seen: self.permission_result_seen,
            permission_denied: self.permission_denied,
            pending_toggle: self.pending_toggle,
            awaiting_pane,
            awaiting_tab,
            awaiting_updates,
            awaiting_write_to_new_pane: awaiting_write,
            known_terminal_ids: known_len,
            relocating_pane_id: reloc_id,
            relocating_target_tab: reloc_tab,
            relocating_waiting_for_suppressed: reloc_waiting,
            relocating_updates: reloc_updates,
            pane_update_count: self.pane_update_count,
            tab_update_count: self.tab_update_count,
            trace_len: self.trace.len(),
            last_cli_toggle_pipe_id: match &self.last_cli_toggle_id {
                Some(s) => Some(s.clone()),
                None => None,
            },
            launch_command: self.launch_command.clone(),
        };
        Some(WorkspaceStatePayload { tabs, panes, runtime })
    }

    /// Execute one structured request.
    pub fn execute_request(&mut self, req: Request, now_ms: u128) -> (res: (Response, Vec<Command>))
        requires
            old(self).wf(),
        ensures
            final(self).wf(),
            execute_request_post(*old(self), *final(self), req, res.0, res.1@),
            (!old(self).ready && is_mutating_request(req)) ==> res.0.is_failure_with(
                ErrorCode::NotReady,
            ) && res.1@.len() == 0,
    {
        let mut out: Vec<Command> = Vec::new();
        match req {
            Request::Ping => (Response::Ack, out),
            Request::GetState => {
                if !self.ready {
                    return (
                        Response::Failure {
                            code: ErrorCode::NotReady,
                            message: "permissions not granted yet".to_owned(),
                        },
                        out,
                    );
                }
                match self.workspace_state_snapshot() {
                    Some(w) => (Response::Workspace(w), out),
                    None => {
                        out.push(Command::RequestSnapshot);
                        (
                            Response::Failure {
                                code: ErrorCode::NotReady,
                                message: "workspace cache is not ready yet".to_owned(),
                            },
                            out,
                        )
                    },
                }
            },
            Request::GetTrace { limit } => {
                let entries = self.trace.snapshot(limit);
                (Response::TraceEntries(entries), out)
            },
            Request::ClearTrace => {
                self.trace.clear();
                (Response::Ack, out)
            },
            Request::RenameTab { position, name } => {
                if !self.ready {
                    return (
                        Response::Failure {
                            code: ErrorCode::NotReady,
                            message: "permissions not granted yet".to_owned(),
                        },
                        out,
                    );
                }
                if !tab_exists(&self.tabs, position) {
                    return (
                        Response::Failure {
                            code: ErrorCode::TabNotFound,
                            message: "no tab at that position in the current snapshot".to_owned(),
                        },
                        out,
                    );
                }
                self.trace.append(now_ms, "request: rename tab".to_owned());
                out.push(Command::RenameTab { position, name });
                (Response::Ack, out)
            },
            Request::RenamePane { pane_id, name } => {
                if !self.ready {
                    return (
                        Response::Failure {
                            code: ErrorCode::NotReady,
                            message: "permissions not granted yet".to_owned(),
                        },
                        out,
                    );
                }
                if !usable_pane_found(&self.panes, pane_id) {
                    return (
                        Response::Failure {
                            code: ErrorCode::PaneNotFound,
                            message: "no usable pane with that id in the current snapshot"
                                .to_owned(),
                        },
                        out,
                    );
                }
                self.trace.append(now_ms, "request: rename pane".to_owned());
                out.push(Command::RenamePane { id: pane_id, name });
                (Response::Ack, out)
            },
            Request::HidePane { pane_id } => {
                if !self.ready {
                    return (
                        Response::Failure {
                            code: ErrorCode::NotReady,
                            message: "permissions not granted yet".to_owned(),
                        },
                        out,
                    );
                }
                if !usable_pane_found(&self.panes, pane_id) {
                    return (
                        Response::Failure {
                            code: ErrorCode::PaneNotFound,
                            message: "no usable pane with that id in the current snapshot"
                                .to_owned(),
                        },
                        out,
                    );
                }
                self.trace.append(now_ms, "request: hide pane".to_owned());
                out.push(Command::HidePane { id: pane_id });
                (Response::Ack, out)
            },
            Request::ShowPane { pane_id, should_float_if_hidden, should_focus_pane } => {
                if !self.ready {
                    return (
                        Response::Failure {
                            code: ErrorCode::NotReady,
                            message: "permissions not granted yet".to_owned(),
                        },
                        out,
                    );
                }
                if !usable_pane_found(&self.panes, pane_id) {
                    return (
                        Response::Failure {
                            code: ErrorCode::PaneNotFound,
                            message: "no usable pane with that id in the current snapshot"
                                .to_owned(),
                        },
                        out,
                    );
                }
                self.trace.append(now_ms, "request: show pane".to_owned());
                let float_if_hidden = match should_float_if_hidden {
                    Some(v) => v,
                    None => true,
                };
                let focus = match should_focus_pane {
                    Some(v) => v,
                    None => true,
                };
                out.push(Command::ShowPane { id: pane_id, float_if_hidden, focus });
                (Response::Ack, out)
            },
        }
    }

    /// Answer one raw request: a payload that failed to parse is answered
    /// with a typed invalid-request failure carrying the parse error text; a
    /// parsed one is executed.
    pub fn handle_request(&mut self, parsed: Result<Request, String>, now_ms: u128) -> (res: (
        Response,
        Vec<Command>,
    ))
        requires
            old(self).wf(),
        ensures
            final(self).wf(),
            parsed matches Err(msg) ==> {
                &&& (res.0 matches Response::Failure { code, message } && code
                    == ErrorCode::InvalidRequest && message == msg)
                &&& res.1@.len() == 0
                &&& final(self).same_but_trace(*old(self))
            },
            parsed matches Ok(req) ==> execute_request_post(
                *old(self),
                *final(self),
                req,
                res.0,
                res.1@,
            ),
    {
        match parsed {
            Ok(req) => self.execute_request(req, now_ms),
            Err(msg) => {
                self.trace.append(now_ms, "request rejected: unparseable payload".to_owned());
                (
                    Response::Failure { code: ErrorCode::InvalidRequest, message: msg },
                    Vec::new(),
                )
            },
        }
    }
}

} // verus!
