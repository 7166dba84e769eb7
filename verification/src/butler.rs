//! The orchestrator's state: one context object per running instance, owned
//! by the event loop, advanced synchronously by one trigger at a time.
use vstd::prelude::*;
use crate::TOGGLE_DEDUP_WINDOW_MS;
use crate::identity::default_launch_command_str;
use crate::protocol::Command;
use crate::session::Session;
use crate::strings::{is_leading_token, leading_token};
use crate::trace::TraceLog;
use crate::workspace::{Pane, Tab};

verus! {

/// Once a companion pane id has been seen, it is remembered across snapshots
/// that briefly omit it, and forgotten only after staying missing this long
/// (milliseconds) — a momentarily stale snapshot must not look like
/// "companion destroyed" and provoke a redundant second launch.
pub const STICKY_GRACE_MS: u128 = 1500;

pub struct Butler {
    /// Latest pushed workspace snapshot, replaced wholesale on every push.
    pub panes: Option<Vec<Pane>>,
    /// Latest pushed tab listing.
    pub tabs: Option<Vec<Tab>>,
    /// Authorization succeeded (observed or inferred); required by all mutating
    /// operations.
    pub ready: bool,
    /// An explicit authorization result (either way) has been observed.
    pub permission_result_seen: bool,
    /// Authorization was explicitly denied; never inferred.
    pub permission_denied: bool,
    /// A toggle is pending and has not yet been acted on.
    pub pending_toggle: bool,
    /// The in-progress multi-step sequence, if any.
    pub session: Session,
    /// The configured launch command (or the default).
    pub launch_command: String,
    /// The leading executable token of `launch_command`.
    pub launch_token: String,
    /// The host's launch primitive does not take an initial command
    /// atomically, so a freshly created pane still gets the command typed in.
    pub write_after_launch: bool,
    pub pane_update_count: u64,
    pub tab_update_count: u64,
    pub seen_pane_update: bool,
    pub seen_tab_update: bool,
    /// Caller identity of the last accepted toggle, for duplicate suppression.
    pub last_cli_toggle_id: Option<String>,
    /// Timestamp of the last accepted toggle, for the dedup window.
    pub last_toggle_epoch_ms: Option<u128>,
    /// The companion pane id most recently seen in a snapshot, if any.
    pub sticky_pane_id: Option<u32>,
    /// When `sticky_pane_id` was last seen in a snapshot.
    pub sticky_last_seen_ms: u128,
    pub trace: TraceLog,
}

/// A toggle at `now` falls inside the dedup window of the last accepted one.
/// A clock that moved backwards counts as inside the window.
pub open spec fn within_dedup_window(last: Option<u128>, now: u128) -> bool {
    last matches Some(l) && (now <= l || now - l <= TOGGLE_DEDUP_WINDOW_MS)
}

impl Butler {
    pub open spec fn wf(self) -> bool {
        &&& is_leading_token(self.launch_command@, self.launch_token@)
        &&& self.session.wf()
        &&& self.trace.wf()
        &&& (self.permission_denied ==> self.permission_result_seen)
        &&& (self.ready ==> !self.permission_denied)
    }

    /// Everything but the trace is equal: the two states decide identically.
    pub open spec fn same_but_trace(self, other: Butler) -> bool {
        &&& self.panes == other.panes
        &&& self.tabs == other.tabs
        &&& self.ready == other.ready
        &&& self.permission_result_seen == other.permission_result_seen
        &&& self.permission_denied == other.permission_denied
        &&& self.pending_toggle == other.pending_toggle
        &&& self.session == other.session
        &&& self.launch_command == other.launch_command
        &&& self.launch_token == other.launch_token
        &&& self.write_after_launch == other.write_after_launch
        &&& self.pane_update_count == other.pane_update_count
        &&& self.tab_update_count == other.tab_update_count
        &&& self.seen_pane_update == other.seen_pane_update
        &&& self.seen_tab_update == other.seen_tab_update
        &&& self.last_cli_toggle_id == other.last_cli_toggle_id
        &&& self.last_toggle_epoch_ms == other.last_toggle_epoch_ms
        &&& self.sticky_pane_id == other.sticky_pane_id
        &&& self.sticky_last_seen_ms == other.sticky_last_seen_ms
    }

    /// Everything but the session and the trace is equal: what a session
    /// advance leaves untouched.
    pub open spec fn same_but_session_and_trace(self, other: Butler) -> bool {
        &&& self.panes == other.panes
        &&& self.tabs == other.tabs
        &&& self.ready == other.ready
        &&& self.permission_result_seen == other.permission_result_seen
        &&& self.permission_denied == other.permission_denied
        &&& self.pending_toggle == other.pending_toggle
        &&& self.launch_command == other.launch_command
        &&& self.launch_token == other.launch_token
        &&& self.write_after_launch == other.write_after_launch
        &&& self.pane_update_count == other.pane_update_count
        &&& self.tab_update_count == other.tab_update_count
        &&& self.seen_pane_update == other.seen_pane_update
        &&& self.seen_tab_update == other.seen_tab_update
        &&& self.last_cli_toggle_id == other.last_cli_toggle_id
        &&& self.last_toggle_epoch_ms == other.last_toggle_epoch_ms
        &&& self.sticky_pane_id == other.sticky_pane_id
        &&& self.sticky_last_seen_ms == other.sticky_last_seen_ms
    }

    /// Construct the orchestrator at startup. A configured launch command is
    /// taken as given (the caller strips surrounding whitespace); an absent
    /// or empty one falls back to the default.
    pub fn new(launch_command: Option<String>, write_after_launch: bool) -> (r: Butler)
        ensures
            r.wf(),
            r.launch_command@ == (match launch_command {
                Some(c) => if c@.len() > 0 {
                    c@
                } else {
                    crate::identity::default_launch_command()
                },
                None => crate::identity::default_launch_command(),
            }),
            r.panes is None,
            r.tabs is None,
            !r.ready,
            !r.permission_result_seen,
            !r.permission_denied,
            !r.pending_toggle,
            r.session is Idle,
            r.write_after_launch == write_after_launch,
            r.pane_update_count == 0,
            r.tab_update_count == 0,
            !r.seen_pane_update,
            !r.seen_tab_update,
            r.last_cli_toggle_id is None,
            r.last_toggle_epoch_ms is None,
            r.sticky_pane_id is None,
            r.trace.entries@.len() == 0,
    {
        let launch: String = match launch_command {
            Some(c) => {
                if c.as_str().is_empty() {
                    default_launch_command_str().to_owned()
                } else {
                    c
                }
            },
            None => default_launch_command_str().to_owned(),
        };
        let token = leading_token(launch.as_str());
        Butler {
            panes: None,
            tabs: None,
            ready: false,
            permission_result_seen: false,
            permission_denied: false,
            pending_toggle: false,
            session: Session::Idle,
            launch_command: launch,
            launch_token: token,
            write_after_launch,
            pane_update_count: 0,
            tab_update_count: 0,
            seen_pane_update: false,
            seen_tab_update: false,
            last_cli_toggle_id: None,
            last_toggle_epoch_ms: None,
            sticky_pane_id: None,
            sticky_last_seen_ms: 0,
            trace: TraceLog::new(),
        }
    }

    /// Startup: construct the orchestrator and hand back the commands the
    /// host needs at load time — subscribe to events, start the
    /// authorization handshake, and ask for an initial snapshot.
    pub fn load(launch_command: Option<String>, write_after_launch: bool, now_ms: u128) -> (res: (
        Butler,
        Vec<Command>,
    ))
        ensures
            res.0.wf(),
            res.0.launch_command@ == (match launch_command {
                Some(c) => if c@.len() > 0 {
                    c@
                } else {
                    crate::identity::default_launch_command()
                },
                None => crate::identity::default_launch_command(),
            }),
            res.0.panes is None,
            res.0.tabs is None,
            !res.0.ready,
            !res.0.permission_result_seen,
            !res.0.permission_denied,
            !res.0.pending_toggle,
            res.0.session is Idle,
            res.0.write_after_launch == write_after_launch,
            res.0.last_cli_toggle_id is None,
            res.0.last_toggle_epoch_ms is None,
            res.0.sticky_pane_id is None,
            res.1@ == seq![
                Command::SubscribeToEvents,
                Command::RequestAuthorization,
                Command::RequestSnapshot,
            ],
    {
        let mut b = Butler::new(launch_command, write_after_launch);
        b.trace.append(now_ms, "loaded".to_owned());
        let mut out: Vec<Command> = Vec::new();
        out.push(Command::SubscribeToEvents);
        out.push(Command::RequestAuthorization);
        out.push(Command::RequestSnapshot);
        proof {
            assert(out@ =~= seq![
                Command::SubscribeToEvents,
                Command::RequestAuthorization,
                Command::RequestSnapshot,
            ]);
        }
        (b, out)
    }

    /// The time-window filter: a toggle arriving within the window of the
    /// last accepted one is absorbed; an accepted one moves the window.
    pub fn toggle_within_dedup_window(&mut self, now_ms: u128) -> (r: bool)
        requires
            old(self).wf(),
        ensures
            final(self).wf(),
            r == within_dedup_window(old(self).last_toggle_epoch_ms, now_ms),
            r ==> *final(self) == *old(self),
            !r ==> final(self).same_but_trace(
                (Butler { last_toggle_epoch_ms: Some(now_ms), ..*old(self) }),
            ) && final(self).trace == old(self).trace,
    {
        if let Some(last) = self.last_toggle_epoch_ms {
            if now_ms.saturating_sub(last) <= TOGGLE_DEDUP_WINDOW_MS {
                return true;
            }
        }
        self.last_toggle_epoch_ms = Some(now_ms);
        false
    }

    /// Readiness inference: a usable snapshot arriving while authorization is
    /// still unknown (and was never denied) can only mean the grant happened
    /// without the explicit result event being seen.
    pub fn infer_cached_permission_grant(&mut self, now_ms: u128)
        requires
            old(self).wf(),
        ensures
            final(self).wf(),
            final(self).ready == (old(self).ready || (!old(self).permission_result_seen && !old(
                self,
            ).permission_denied && old(self).panes is Some)),
            final(self).same_but_trace((Butler { ready: final(self).ready, ..*old(self) })),
    {
        if self.ready || self.permission_result_seen || self.permission_denied
            || self.panes.is_none() {
            return ;
        }
        self.ready = true;
        self.trace.append(now_ms, "permission inferred via cached grant".to_owned());
    }
}

} // verus!
