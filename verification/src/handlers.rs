//! The three inbound triggers: an authorization result, a workspace snapshot,
//! a tab listing — and the toggle request. All state transitions happen
//! synchronously inside one of these, one trigger at a time.
use vstd::prelude::*;
use crate::butler::{Butler, within_dedup_window, STICKY_GRACE_MS};
use crate::creation::creation_step_post;
use crate::identity::{companion_at, find_first_companion};
use crate::protocol::{Command, Response};
use crate::relocation::relocation_step_post;
use crate::session::Session;
use crate::toggle::toggle_decision_post;
use crate::workspace::{Pane, Tab};

verus! {

/// What absorbing a snapshot does to the state before any session or toggle
/// logic runs: replace the cache wholesale, bump the counters, refresh or
/// expire the remembered companion id, and infer readiness if a usable
/// snapshot is the first sign of a grant.
pub open spec fn pane_absorb_post(pre: Butler, mid: Butler, manifest: Vec<Pane>, now_ms: u128) -> bool {
    let m = manifest@;
    let l = pre.launch_command@;
    let t = pre.launch_token@;
    &&& mid.panes == Some(manifest)
    &&& mid.pane_update_count == (if pre.pane_update_count == u64::MAX {
        u64::MAX
    } else {
        (pre.pane_update_count + 1) as u64
    })
    &&& mid.seen_pane_update
    &&& (if exists|i: int| 0 <= i < m.len() && companion_at(m, i, l, t) {
        exists|i: int|
            {
                &&& 0 <= i < m.len()
                &&& companion_at(m, i, l, t)
                &&& forall|k: int| 0 <= k < i ==> !companion_at(m, k, l, t)
                &&& mid.sticky_pane_id == Some(m[i].id)
                &&& mid.sticky_last_seen_ms == now_ms
            }
    } else if pre.sticky_pane_id is Some && now_ms > pre.sticky_last_seen_ms + STICKY_GRACE_MS {
        // The remembered companion stayed missing beyond the grace period.
        &&& mid.sticky_pane_id is None
        &&& mid.sticky_last_seen_ms == pre.sticky_last_seen_ms
    } else {
        &&& mid.sticky_pane_id == pre.sticky_pane_id
        &&& mid.sticky_last_seen_ms == pre.sticky_last_seen_ms
    })
    &&& mid.ready == (pre.ready || (!pre.permission_result_seen && !pre.permission_denied))
    &&& mid.tabs == pre.tabs
    &&& mid.permission_result_seen == pre.permission_result_seen
    &&& mid.permission_denied == pre.permission_denied
    &&& mid.pending_toggle == pre.pending_toggle
    &&& mid.session == pre.session
    &&& mid.launch_command == pre.launch_command
    &&& mid.launch_token == pre.launch_token
    &&& mid.write_after_launch == pre.write_after_launch
    &&& mid.tab_update_count == pre.tab_update_count
    &&& mid.seen_tab_update == pre.seen_tab_update
    &&& mid.last_cli_toggle_id == pre.last_cli_toggle_id
    &&& mid.last_toggle_epoch_ms == pre.last_toggle_epoch_ms
}

/// Advancing whatever session is in flight: nothing when idle, one creation
/// step or one relocation step otherwise — each strictly decreasing the
/// session measure, so no session outlives its snapshot budget.
pub open spec fn session_advance_post(a: Butler, b: Butler, c: Seq<Command>) -> bool {
    match a.session {
        Session::Idle => b == a && c == Seq::<Command>::empty(),
        Session::AwaitingCreation { .. } => creation_step_post(a, b, c)
            && b.session.measure() < a.session.measure(),
        Session::Relocating { .. } => relocation_step_post(a, b, c)
            && b.session.measure() < a.session.measure(),
    }
}

/// The toggle re-evaluation every trigger ends with: consume the pending
/// intent if the readiness guard allows, else change nothing.
pub open spec fn toggle_tail_post(mid: Butler, post: Butler, c: Seq<Command>, now_ms: u128) -> bool {
    &&& (mid.can_run_toggle() ==> toggle_decision_post(
        (Butler { pending_toggle: false, ..mid }),
        post,
        c,
        now_ms,
    ))
    &&& (!mid.can_run_toggle() ==> post.same_but_trace(mid) && c == Seq::<Command>::empty())
}

impl Butler {
    /// An authorization result arrived. A grant opens the guard, asks
    /// for a fresh snapshot and honors any pending toggle; a denial closes
    /// the guard terminally (a later snapshot cannot reopen it by inference).
    pub fn handle_permission_result(&mut self, granted: bool, now_ms: u128) -> (r: Vec<Command>)
        requires
            old(self).wf(),
        ensures
            final(self).wf(),
            granted ==> {
                &&& final(self).ready
                &&& final(self).permission_result_seen
                &&& !final(self).permission_denied
                &&& r@.len() >= 1 && r@[0] == Command::RequestSnapshot
                &&& exists|mid: Butler|
                    {
                        &&& mid == (Butler {
                            ready: true,
                            permission_result_seen: true,
                            permission_denied: false,
                            trace: mid.trace,
                            ..*old(self)
                        })
                        &&& #[trigger] toggle_tail_post(
                            mid,
                            *final(self),
                            r@.subrange(1, r@.len() as int),
                            now_ms,
                        )
                    }
            },
            !granted ==> {
                &&& !final(self).ready
                &&& final(self).permission_result_seen
                &&& final(self).permission_denied
                &&& r@.len() == 0
                &&& final(self).same_but_trace(
                    (Butler {
                        ready: false,
                        permission_result_seen: true,
                        permission_denied: true,
                        ..*old(self)
                    }),
                )
            },
    {
        let mut out: Vec<Command> = Vec::new();
        if granted {
            self.permission_result_seen = true;
            self.permission_denied = false;
            self.ready = true;
            self.trace.append(now_ms, "permission granted".to_owned());
            out.push(Command::RequestSnapshot);
            let ghost mid = *self;
            let mut tail = self.try_run_toggle(now_ms);
            let ghost gtail = tail@;
            proof {
                if !mid.can_run_toggle() {
                    assert(gtail =~= Seq::<Command>::empty());
                }
                assert(toggle_tail_post(mid, *self, gtail, now_ms));
            }
            out.append(&mut tail);
            proof {
                assert(out@.subrange(1, out@.len() as int) =~= gtail);
            }
        } else {
            self.permission_result_seen = true;
            self.permission_denied = true;
            self.ready = false;
            self.trace.append(now_ms, "permission denied".to_owned());
        }
        out
    }

    /// A workspace snapshot arrived: absorb it, advance whatever session is
    /// in flight, then honor any pending toggle.
    pub fn handle_pane_update(&mut self, manifest: Vec<Pane>, now_ms: u128) -> (r: Vec<Command>)
        requires
            old(self).wf(),
        ensures
            final(self).wf(),
            exists|mid: Butler, mid2: Butler, c1: Seq<Command>, c2: Seq<Command>|
                {
                    &&& pane_absorb_post(*old(self), mid, manifest, now_ms)
                    &&& mid.wf()
                    &&& #[trigger] session_advance_post(mid, mid2, c1)
                    &&& #[trigger] toggle_tail_post(mid2, *final(self), c2, now_ms)
                    &&& r@ == c1 + c2
                },
    {
        self.pane_update_count = self.pane_update_count.saturating_add(1);
        if !self.seen_pane_update {
            self.seen_pane_update = true;
            self.trace.append(now_ms, "first snapshot received".to_owned());
        }
        self.panes = Some(manifest);
        {
            let m = self.panes.as_ref().unwrap();
            match find_first_companion(m, self.launch_command.as_str(), self.launch_token.as_str()) {
                Some(i) => {
                    self.sticky_pane_id = Some(m[i].id);
                    self.sticky_last_seen_ms = now_ms;
                },
                None => {
                    if self.sticky_pane_id.is_some() && now_ms > self.sticky_last_seen_ms.saturating_add(
                        STICKY_GRACE_MS,
                    ) {
                        self.sticky_pane_id = None;
                    }
                },
            }
        }
        self.infer_cached_permission_grant(now_ms);
        let ghost mid = *self;
        let mut out: Vec<Command>;
        match &self.session {
            Session::Idle => {
                out = Vec::new();
                proof {
                    assert(out@ =~= Seq::<Command>::empty());
                }
            },
            Session::AwaitingCreation { .. } => {
                out = self.bind_new_companion_pane(now_ms);
            },
            Session::Relocating { .. } => {
                out = self.continue_relocation(now_ms);
            },
        }
        let ghost mid2 = *self;
        let ghost c1 = out@;
        let mut tail = self.try_run_toggle(now_ms);
        let ghost c2 = tail@;
        proof {
            if !mid2.can_run_toggle() {
                assert(c2 =~= Seq::<Command>::empty());
            }
            assert(toggle_tail_post(mid2, *self, c2, now_ms));
            assert(session_advance_post(mid, mid2, c1));
        }
        out.append(&mut tail);
        out
    }

    /// A tab listing arrived: absorb it, then honor any pending toggle.
    pub fn handle_tab_update(&mut self, tabs: Vec<Tab>, now_ms: u128) -> (r: Vec<Command>)
        requires
            old(self).wf(),
        ensures
            final(self).wf(),
            exists|mid: Butler|
                {
                    &&& mid == (Butler {
                        tabs: Some(tabs),
                        tab_update_count: (if old(self).tab_update_count == u64::MAX {
                            u64::MAX
                        } else {
                            (old(self).tab_update_count + 1) as u64
                        }),
                        seen_tab_update: true,
                        ready: (old(self).ready || (!old(self).permission_result_seen && !old(
                            self,
                        ).permission_denied && old(self).panes is Some)),
                        trace: mid.trace,
                        ..*old(self)
                    })
                    &&& #[trigger] toggle_tail_post(mid, *final(self), r@, now_ms)
                },
    {
        self.tab_update_count = self.tab_update_count.saturating_add(1);
        if !self.seen_tab_update {
            self.seen_tab_update = true;
            self.trace.append(now_ms, "first tab listing received".to_owned());
        }
        self.tabs = Some(tabs);
        self.infer_cached_permission_grant(now_ms);
        let ghost mid = *self;
        let out = self.try_run_toggle(now_ms);
        proof {
            if !mid.can_run_toggle() {
                assert(out@ =~= Seq::<Command>::empty());
            }
            assert(toggle_tail_post(mid, *self, out@, now_ms));
        }
        out
    }

    /// A toggle request arrived. Two filters absorb bursts: a repeat within
    /// the dedup window, or a repeat of the immediately preceding caller
    /// identity, is answered as a successful no-op with no state transition
    /// and no command. An accepted toggle sets the pending intent and acts on
    /// it at once if the readiness guard allows.
    pub fn handle_toggle(&mut self, now_ms: u128, cli_id: Option<String>) -> (res: (
        Response,
        Vec<Command>,
    ))
        requires
            old(self).wf(),
        ensures
            final(self).wf(),
            within_dedup_window(old(self).last_toggle_epoch_ms, now_ms) ==> {
                &&& res.0 is AckDedupWindow
                &&& res.1@.len() == 0
                &&& final(self).same_but_trace(*old(self))
            },
            (!within_dedup_window(old(self).last_toggle_epoch_ms, now_ms) && is_duplicate_request(
                old(self).last_cli_toggle_id,
                cli_id,
            )) ==> {
                &&& res.0 is AckDuplicate
                &&& res.1@.len() == 0
                &&& final(self).same_but_trace(
                    (Butler { last_toggle_epoch_ms: Some(now_ms), ..*old(self) }),
                )
            },
            (!within_dedup_window(old(self).last_toggle_epoch_ms, now_ms) && !is_duplicate_request(
                old(self).last_cli_toggle_id,
                cli_id,
            )) ==> {
                &&& res.0 is Ack
                &&& accepted_toggle_post(*old(self), *final(self), res.1@, now_ms, cli_id)
            },
    {
        if self.toggle_within_dedup_window(now_ms) {
            self.trace.append(now_ms, "toggle ignored: inside the dedup window".to_owned());
            return (Response::AckDedupWindow, Vec::new());
        }
        let ghost gcli = cli_id;
        let duplicate: bool = if self.last_cli_toggle_id.is_some() && cli_id.is_some() {
            let prev = self.last_cli_toggle_id.as_ref().unwrap();
            let cur = cli_id.as_ref().unwrap();
            String::eq(prev, cur)
        } else {
            false
        };
        proof {
            assert(duplicate == is_duplicate_request(old(self).last_cli_toggle_id, gcli));
        }
        if duplicate {
            self.trace.append(now_ms, "toggle ignored: repeated caller identity".to_owned());
            return (Response::AckDuplicate, Vec::new());
        }
        match cli_id {
            Some(c) => {
                self.last_cli_toggle_id = Some(c);
            },
            None => {},
        }
        self.trace.append(now_ms, "toggle accepted".to_owned());
        self.pending_toggle = true;
        let ghost mid = *self;
        proof {
            assert(mid == (Butler {
                pending_toggle: true,
                last_toggle_epoch_ms: Some(now_ms),
                last_cli_toggle_id: (match gcli {
                    Some(c) => Some(c),
                    None => old(self).last_cli_toggle_id,
                }),
                trace: mid.trace,
                ..*old(self)
            }));
        }
        let out = self.try_run_toggle(now_ms);
        proof {
            if !mid.can_run_toggle() {
                assert(out@ =~= Seq::<Command>::empty());
            }
            assert(toggle_tail_post(mid, *self, out@, now_ms));
            assert(accepted_toggle_post(*old(self), *self, out@, now_ms, gcli));
        }
        (Response::Ack, out)
    }
}

/// What an accepted toggle does: set the pending intent (with the dedup
/// bookkeeping refreshed) and consume it at once if the readiness guard allows.
pub open spec fn accepted_toggle_post(
    pre: Butler,
    post: Butler,
    cmds: Seq<Command>,
    now_ms: u128,
    cli: Option<String>,
) -> bool {
    exists|mid: Butler|
        {
            &&& mid == (Butler {
                pending_toggle: true,
                last_toggle_epoch_ms: Some(now_ms),
                last_cli_toggle_id: (match cli {
                    Some(c) => Some(c),
                    None => pre.last_cli_toggle_id,
                }),
                trace: mid.trace,
                ..pre
            })
            &&& #[trigger] toggle_tail_post(mid, post, cmds, now_ms)
        }
}

/// The request repeats the caller identity of the immediately preceding
/// accepted toggle.
pub open spec fn is_duplicate_request(last: Option<String>, cli: Option<String>) -> bool {
    last matches Some(prev) && cli matches Some(cur) && prev@ == cur@
}


/// Toggle idempotence within the dedup window: once a toggle has been
/// accepted at `now1`, any toggle arriving at most the window later falls
/// inside the dedup window of the resulting state — and `handle_toggle`'s
/// contract then answers it as a successful no-op, with no state transition
/// and no command.
pub proof fn lemma_second_toggle_in_window_is_absorbed(
    pre: Butler,
    post: Butler,
    cmds: Seq<Command>,
    now1: u128,
    now2: u128,
    cli: Option<String>,
)
    requires
        accepted_toggle_post(pre, post, cmds, now1, cli),
        now1 <= now2 <= now1 + crate::TOGGLE_DEDUP_WINDOW_MS,
    ensures
        within_dedup_window(post.last_toggle_epoch_ms, now2),
{
    let mid = choose|mid: Butler|
        {
            &&& mid == (Butler {
                pending_toggle: true,
                last_toggle_epoch_ms: Some(now1),
                last_cli_toggle_id: (match cli {
                    Some(c) => Some(c),
                    None => pre.last_cli_toggle_id,
                }),
                trace: mid.trace,
                ..pre
            })
            &&& #[trigger] toggle_tail_post(mid, post, cmds, now1)
        };
    assert(post.last_toggle_epoch_ms == Some(now1));
}

/// Duplicate external request suppression: once a toggle carrying a caller
/// identity has been accepted, an immediately following toggle with the same
/// identity is a duplicate of the resulting state — and `handle_toggle`'s
/// contract then answers it as a successful no-op, with no command.
pub proof fn lemma_second_toggle_with_same_identity_is_duplicate(
    pre: Butler,
    post: Butler,
    cmds: Seq<Command>,
    now1: u128,
    c: String,
)
    requires
        accepted_toggle_post(pre, post, cmds, now1, Some(c)),
    ensures
        is_duplicate_request(post.last_cli_toggle_id, Some(c)),
{
    let mid = choose|mid: Butler|
        {
            &&& mid == (Butler {
                pending_toggle: true,
                last_toggle_epoch_ms: Some(now1),
                last_cli_toggle_id: (match Some(c) {
                    Some(cc) => Some(cc),
                    None => pre.last_cli_toggle_id,
                }),
                trace: mid.trace,
                ..pre
            })
            &&& #[trigger] toggle_tail_post(mid, post, cmds, now1)
        };
    assert(post.last_cli_toggle_id == Some(c));
}

} // verus!
