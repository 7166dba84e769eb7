//! The in-progress state of a multi-step sequence: one variant per phase,
//! carrying exactly the fields that phase needs. "Waiting" is represented by
//! remaining in a non-idle variant across snapshots, with a bounded counter
//! standing in for a timeout.
use vstd::prelude::*;

verus! {

/// How many snapshots a session may observe without progress before it is
/// abandoned and the orchestrator returns to a responsive idle state.
pub const SESSION_UPDATE_BUDGET: u16 = 1200;

/// Every this many fruitless snapshots, a waiting session re-issues its hide
/// command in case the first one was lost.
pub const SUPPRESS_RETRY_INTERVAL: u16 = 30;

/// Every this many fruitless snapshots, a session notes in the trace that it
/// is still waiting.
pub const SESSION_TRACE_INTERVAL: u16 = 100;

#[allow(inconsistent_fields)]
pub enum Session {
    /// No multi-step sequence is in flight.
    Idle,
    /// A launch command was issued; watching snapshots for the new pane.
    AwaitingCreation {
        /// The tab the new pane should end up in.
        target_tab: Option<usize>,
        /// Snapshots observed without finding a candidate.
        updates: u16,
        /// The launch primitive did not take the command atomically, so it
        /// must still be typed into the pane once the pane is found.
        write_pending: bool,
        /// Pane identifiers that existed before the launch, so the new pane
        /// can be recognized as not previously known.
        known_ids: Vec<u32>,
    },
    /// A move command was issued for a known pane; watching snapshots until
    /// it reaches the target tab and can be revealed as floating.
    Relocating {
        pane_id: u32,
        target_tab: usize,
        /// A hide was issued for a pane that arrived tiled; waiting for a
        /// snapshot that confirms it suppressed before revealing it floating.
        waiting_for_suppressed: bool,
        /// Snapshots observed without progress.
        updates: u16,
    },
}

impl Session {
    /// A session never outlives its budget: the counter stays within bounds
    /// while the session is live.
    pub open spec fn wf(self) -> bool {
        match self {
            Session::Idle => true,
            Session::AwaitingCreation { updates, .. } => updates <= SESSION_UPDATE_BUDGET,
            Session::Relocating { updates, .. } => updates <= SESSION_UPDATE_BUDGET,
        }
    }

    /// A variant for session termination: every snapshot processed while a
    /// session is live strictly decreases this measure, and it is bounded
    /// below, so every session reaches `Idle` within a bounded number of
    /// snapshots no matter what the snapshots show.
    pub open spec fn measure(self) -> int {
        match self {
            Session::Idle => 0,
            Session::Relocating { waiting_for_suppressed: true, updates, .. } => 1
                + SESSION_UPDATE_BUDGET - updates,
            Session::Relocating { waiting_for_suppressed: false, updates, .. } => 2
                + 2 * SESSION_UPDATE_BUDGET - updates,
            Session::AwaitingCreation { updates, .. } => 3 + 3 * SESSION_UPDATE_BUDGET - updates,
        }
    }
}

/// Session termination, made explicit: a live session's measure is positive
/// and bounded, and only the idle session has measure zero. Together with the
/// strict decrease that every processed snapshot ensures, any live session
/// reaches `Idle` within a bounded number of snapshots, whether or not the
/// expected pane ever appears.
pub proof fn lemma_session_measure_bounds(s: Session)
    requires
        s.wf(),
    ensures
        0 <= s.measure() <= 3 + 3 * SESSION_UPDATE_BUDGET,
        s.measure() == 0 <==> s is Idle,
{
}

} // verus!
