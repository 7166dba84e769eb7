//! Orchestration of a single "companion" terminal pane inside a workspace of
//! dynamically changing tabs and panes. One toggle action shows, hides,
//! relocates or lazily creates that pane, so it is always reachable with a
//! single command, while duplicate companions are never left running.
//!
//! The workspace is observed only through asynchronous, eventually-delivered
//! snapshots pushed by the host; no command issued to the host is confirmed
//! synchronously. Completion is inferred from later snapshots, including
//! recognizing which newly appeared pane corresponds to a launch issued
//! earlier, among unrelated concurrent churn. Every multi-step sequence is
//! therefore explicit state resumed on the next trigger, with a bounded
//! counter standing in for a timeout.
//!
//! The library is pure decision logic: each inbound trigger (an authorization
//! result, a snapshot, a tab listing, a toggle, a structured request) is a
//! call on [`butler::Butler`] that takes plain values and the current clock
//! reading, updates the state, and returns the [`protocol::Command`]s for the
//! caller to perform. All I/O — the host calls, the clock, the JSON wire
//! format — stays with the caller.
pub mod butler;
pub mod canonical;
pub mod creation;
pub mod handlers;
pub mod identity;
pub mod protocol;
pub mod relocation;
pub mod requests;
pub mod session;
pub mod strings;
pub mod toggle;
pub mod trace;
pub mod workspace;

use vstd::prelude::*;

verus! {

/// Capacity of the diagnostics trace ring buffer.
pub const TRACE_CAPACITY: usize = 200;

/// Two toggle requests closer together than this (milliseconds) are one.
pub const TOGGLE_DEDUP_WINDOW_MS: u128 = 100;

} // verus!
