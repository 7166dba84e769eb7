//! What crosses the boundary of the orchestrator: outbound host commands,
//! inbound structured requests, and the response envelope each request gets.
use vstd::prelude::*;
use crate::trace::TraceEntry;

verus! {

/// One command for the host. The orchestrator only decides; the caller is
/// expected to perform each command, in order, after the deciding call
/// returns. Where a command carries text to type into a pane, the performer
/// appends the end-of-line that makes the host run it.
pub enum Command {
    /// Subscribe to pane, tab and authorization events.
    SubscribeToEvents,
    /// Start the authorization handshake.
    RequestAuthorization,
    /// Ask the host to push a fresh workspace snapshot.
    RequestSnapshot,
    /// Suppress a pane: hidden from view but not destroyed.
    HidePane { id: u32 },
    /// Reveal a pane, optionally floating it and giving it focus.
    ShowPane { id: u32, float_if_hidden: bool, focus: bool },
    /// Hand focus to a pane.
    FocusPane { id: u32 },
    /// Destroy a pane.
    ClosePane { id: u32 },
    /// Move a pane into another tab.
    MovePaneToTab { id: u32, tab: usize, clear_focus: bool },
    RenamePane { id: u32, name: String },
    /// `position` is the 0-based position as reported in snapshots; a host
    /// that indexes 1-based gets the conversion applied by the performer,
    /// never here.
    RenameTab { position: usize, name: String },
    /// Type text into a pane (the performer appends the end-of-line).
    WriteToPane { id: u32, text: String },
    /// Launch a new terminal pane running `command`, floating, titled `title`.
    LaunchPane { path: String, title: String, command: String, floating: bool },
}

/// `cmds` contains a command to destroy the pane with this identifier.
pub open spec fn closes_pane(cmds: Seq<Command>, id: u32) -> bool {
    exists|n: int| 0 <= n < cmds.len() && cmds[n] == (Command::ClosePane { id })
}

/// A structured request from an external caller.
pub enum Request {
    Ping,
    GetState,
    GetTrace { limit: Option<usize> },
    ClearTrace,
    RenameTab { position: usize, name: String },
    RenamePane { pane_id: u32, name: String },
    HidePane { pane_id: u32 },
    ShowPane { pane_id: u32, should_float_if_hidden: Option<bool>, should_focus_pane: Option<bool> },
}

/// Machine-readable failure codes, one per failure class.
#[derive(Clone, Copy, PartialEq, Eq, Structural, Debug)]
pub enum ErrorCode {
    /// A mutating operation was attempted before authorization succeeded.
    NotReady,
    /// The request could not be parsed.
    InvalidRequest,
    /// The request names a tab position absent from the current snapshot.
    TabNotFound,
    /// The request names a pane absent from the current snapshot (or exited).
    PaneNotFound,
}

/// The per-tab slice of a full-state report.
pub struct TabStatePayload {
    pub position: usize,
    pub name: String,
    pub active: bool,
    pub selectable_tiled_panes_count: usize,
    pub selectable_floating_panes_count: usize,
}

/// The per-pane slice of a full-state report.
pub struct PaneStatePayload {
    pub id: u32,
    pub tab_index: usize,
    pub title: String,
    pub terminal_command: Option<String>,
    pub is_plugin: bool,
    pub is_focused: bool,
    pub is_floating: bool,
    pub is_suppressed: bool,
    pub exited: bool,
}

/// The orchestrator's own bookkeeping, as reported in a full-state report.
pub struct RuntimeStatePayload {
    pub ready: bool,
    pub permission_result_seen: bool,
    pub permission_denied: bool,
    pub pending_toggle: bool,
    pub awaiting_pane: bool,
    pub awaiting_tab: Option<usize>,
    pub awaiting_updates: u16,
    pub awaiting_write_to_new_pane: bool,
    pub known_terminal_ids: usize,
    pub relocating_pane_id: Option<u32>,
    pub relocating_target_tab: Option<usize>,
    pub relocating_waiting_for_suppressed: bool,
    pub relocating_updates: u16,
    pub pane_update_count: u64,
    pub tab_update_count: u64,
    pub trace_len: usize,
    pub last_cli_toggle_pipe_id: Option<String>,
    pub launch_command: String,
}

/// A full-state report: the cached workspace view plus runtime bookkeeping.
pub struct WorkspaceStatePayload {
    pub tabs: Vec<TabStatePayload>,
    pub panes: Vec<PaneStatePayload>,
    pub runtime: RuntimeStatePayload,
}

/// What a request or toggle is answered with: exactly one response per
/// request, produced before the triggering call returns.
pub enum Response {
    /// Success with nothing to report.
    Ack,
    /// A toggle arrived within the dedup window of the last accepted one and
    /// was absorbed as a successful no-op.
    AckDedupWindow,
    /// A toggle repeated the immediately preceding caller identity and was
    /// absorbed as a successful no-op.
    AckDuplicate,
    /// The trace entries a get-trace request asked for.
    TraceEntries(Vec<TraceEntry>),
    /// The payload of a get-full-state request.
    Workspace(WorkspaceStatePayload),
    /// A typed failure.
    Failure { code: ErrorCode, message: String },
}

impl Response {
    pub open spec fn is_failure_with(self, code: ErrorCode) -> bool {
        self matches Response::Failure { code: c, .. } && c == code
    }
}

} // verus!
