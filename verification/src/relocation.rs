//! Advancing a relocation session on each snapshot: wait for the moved pane
//! to reach its target tab, then force the suppress-then-reveal dance so the
//! companion always reappears floating rather than split into the tiled
//! layout; abandon the session once its snapshot budget is spent.
use vstd::prelude::*;
use crate::butler::Butler;
use crate::identity::{find_pane_by_id, pane_with_id_at};
use crate::protocol::Command;
use crate::session::{Session, SESSION_TRACE_INTERVAL, SESSION_UPDATE_BUDGET, SUPPRESS_RETRY_INTERVAL};
use crate::workspace::Pane;

verus! {

/// No progress was observed: the counter advances, and the session is
/// abandoned once it exceeds its budget.
pub open spec fn stall_step(
    pane_id: u32,
    target_tab: usize,
    waiting: bool,
    updates: u16,
    s: Session,
    r: Seq<Command>,
) -> bool {
    &&& r == Seq::<Command>::empty()
    &&& s == (if updates + 1 > SESSION_UPDATE_BUDGET {
        Session::Idle
    } else {
        Session::Relocating {
            pane_id,
            target_tab,
            waiting_for_suppressed: waiting,
            updates: (updates + 1) as u16,
        }
    })
}

/// The full transition one snapshot makes while a relocation is in flight.
pub open spec fn relocation_step_post(pre: Butler, post: Butler, r: Seq<Command>) -> bool {
    let m = pre.panes->0@;
    pre.session matches Session::Relocating {
        pane_id,
        target_tab,
        waiting_for_suppressed,
        updates,
    } ==> {
        &&& pre.same_but_session_and_trace(post)
        &&& (if exists|i: int| 0 <= i < m.len() && pane_with_id_at(m, i, pane_id) {
            exists|i: int|
                {
                    &&& 0 <= i < m.len()
                    &&& pane_with_id_at(m, i, pane_id)
                    &&& (forall|k: int| 0 <= k < i ==> !pane_with_id_at(m, k, pane_id))
                    &&& (if m[i].tab != target_tab {
                        // The move has not taken effect yet.
                        stall_step(pane_id, target_tab, waiting_for_suppressed, updates, post.session, r)
                    } else if waiting_for_suppressed {
                        if m[i].is_suppressed {
                            // Confirmed suppressed: reveal it floating, done.
                            &&& r == seq![
                                (Command::ShowPane { id: pane_id, float_if_hidden: true, focus: true }),
                            ]
                            &&& post.session is Idle
                        } else {
                            // Still not suppressed: periodically re-issue the
                            // hide in case the first one was lost.
                            &&& r == (if (updates + 1) % (SUPPRESS_RETRY_INTERVAL as int) == 0 {
                                seq![(Command::HidePane { id: pane_id })]
                            } else {
                                Seq::<Command>::empty()
                            })
                            &&& post.session == (if updates + 1 > SESSION_UPDATE_BUDGET {
                                Session::Idle
                            } else {
                                Session::Relocating {
                                    pane_id,
                                    target_tab,
                                    waiting_for_suppressed: true,
                                    updates: (updates + 1) as u16,
                                }
                            })
                        }
                    } else {
                        if m[i].is_suppressed || m[i].is_floating {
                            // Arrived usable: reveal (idempotent), done.
                            &&& r == seq![
                                (Command::ShowPane { id: pane_id, float_if_hidden: true, focus: true }),
                            ]
                            &&& post.session is Idle
                        } else {
                            // Arrived tiled: suppress first, then wait for a
                            // snapshot confirming it before revealing.
                            &&& r == seq![(Command::HidePane { id: pane_id })]
                            &&& post.session == (Session::Relocating {
                                pane_id,
                                target_tab,
                                waiting_for_suppressed: true,
                                updates: 0,
                            })
                        }
                    })
                }
        } else {
            // The pane is not in the snapshot at all.
            stall_step(pane_id, target_tab, waiting_for_suppressed, updates, post.session, r)
        })
    }
}

impl Butler {
    /// Advance the relocation session against the latest snapshot. The
    /// session measure strictly decreases, so the session reaches idle within
    /// a bounded number of snapshots whether or not the pane ever arrives.
    pub fn continue_relocation(&mut self, now_ms: u128) -> (r: Vec<Command>)
        requires
            old(self).wf(),
            old(self).session is Relocating,
            old(self).panes is Some,
        ensures
            final(self).wf(),
            relocation_step_post(*old(self), *final(self), r@),
            final(self).session.measure() < old(self).session.measure(),
            final(self).session matches Session::Relocating { pane_id, .. } ==> old(
                self,
            ).session matches Session::Relocating { pane_id: p0, .. } && pane_id == p0,
    {
        let (pane_id, target_tab, waiting, updates) = match &self.session {
            Session::Relocating { pane_id, target_tab, waiting_for_suppressed, updates } => (
                *pane_id,
                *target_tab,
                *waiting_for_suppressed,
                *updates,
            ),
            _ => {
                proof {
                    assert(false);
                }
                (0u32, 0usize, false, 0u16)
            },
        };
        let mut out: Vec<Command> = Vec::new();
        let mut arrived = false;
        let mut sup = false;
        let mut floating = false;
        {
            let manifest = self.panes.as_ref().unwrap();
            match find_pane_by_id(manifest, pane_id) {
                Some(i) => {
                    let p = &manifest[i];
                    if p.tab == target_tab {
                        arrived = true;
                        sup = p.is_suppressed;
                        floating = p.is_floating;
                    }
                },
                None => {},
            }
        }
        if !arrived {
            let nu = updates + 1;
            if nu > SESSION_UPDATE_BUDGET {
                self.session = Session::Idle;
                self.trace.append(now_ms, "relocation abandoned: budget exhausted".to_owned());
            } else {
                self.session = Session::Relocating {
                    pane_id,
                    target_tab,
                    waiting_for_suppressed: waiting,
                    updates: nu,
                };
                if nu % SESSION_TRACE_INTERVAL == 0 {
                    self.trace.append(now_ms, "relocation still waiting for the pane".to_owned());
                }
            }
            return out;
        }
        if waiting {
            if sup {
                out.push(Command::ShowPane { id: pane_id, float_if_hidden: true, focus: true });
                self.session = Session::Idle;
                self.trace.append(now_ms, "relocation done: revealed after suppression".to_owned());
            } else {
                let nu = updates + 1;
                if nu % SUPPRESS_RETRY_INTERVAL == 0 {
                    out.push(Command::HidePane { id: pane_id });
                }
                if nu > SESSION_UPDATE_BUDGET {
                    self.session = Session::Idle;
                    self.trace.append(now_ms, "relocation abandoned: budget exhausted".to_owned());
                } else {
                    self.session = Session::Relocating {
                        pane_id,
                        target_tab,
                        waiting_for_suppressed: true,
                        updates: nu,
                    };
                }
            }
        } else {
            if sup || floating {
                out.push(Command::ShowPane { id: pane_id, float_if_hidden: true, focus: true });
                self.session = Session::Idle;
                self.trace.append(now_ms, "relocation done: pane reached the target tab".to_owned());
            } else {
                // Arrived tiled or embedded: suppress first, reveal later.
                out.push(Command::HidePane { id: pane_id });
                self.session = Session::Relocating {
                    pane_id,
                    target_tab,
                    waiting_for_suppressed: true,
                    updates: 0,
                };
                self.trace.append(now_ms, "relocation: suppressing tiled arrival".to_owned());
            }
        }
        out
    }
}

} // verus!
