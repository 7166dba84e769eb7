//! The toggle decision: given the pending toggle intent and the current
//! snapshot, hide a visible companion, reveal a hidden one, relocate one into
//! the caller's current tab, or launch a brand-new one — destroying duplicate
//! companions on every toggle, and issuing at most one mutating action per
//! evaluation besides that cleanup.
use vstd::prelude::*;
use crate::butler::Butler;
use crate::canonical::{choose_canonical, comps_ok, keeps_companion};
use crate::identity::{
    active_tab_index, active_tab_post, companion_at, companion_indices, companion_title,
    find_other_visible_in_tab, other_visible_in_tab_at,
};
use crate::protocol::{closes_pane, Command};
use crate::session::Session;
use crate::workspace::Pane;

verus! {

/// `cur` is the tab a toggle treats as the caller's current tab: the answer
/// of the preference order, or tab 0 when the workspace is entirely empty.
pub open spec fn current_tab_ok(
    m: Seq<Pane>,
    tabs: Option<Vec<crate::workspace::Tab>>,
    l: Seq<char>,
    t: Seq<char>,
    cur: usize,
) -> bool {
    ||| active_tab_post(m, tabs, l, t, Some(cur))
    ||| (active_tab_post(m, tabs, l, t, None) && cur == 0)
}

/// The first `nc` commands destroy exactly the non-canonical companions:
/// every one of them is such a destruction, and every non-canonical
/// companion is destroyed among them.
pub open spec fn closes_prefix_ok(
    m: Seq<Pane>,
    l: Seq<char>,
    t: Seq<char>,
    ki: int,
    r: Seq<Command>,
    nc: int,
) -> bool {
    &&& 0 <= nc <= r.len()
    &&& forall|n: int|
        0 <= n < nc ==> exists|j: int|
            0 <= j < m.len() && companion_at(m, j, l, t) && j != ki && #[trigger] r[n] == (
            Command::ClosePane { id: m[j].id })
    &&& forall|j: int|
        0 <= j < m.len() && companion_at(m, j, l, t) && j != ki ==> closes_pane(
            r.subrange(0, nc),
            m[j].id,
        )
}

/// What a toggle does with the canonical companion at index `ki`, given the
/// caller's current tab: the commands after the duplicate cleanup, and the
/// session the orchestrator is left in.
pub open spec fn action_tail_ok(
    m: Seq<Pane>,
    l: Seq<char>,
    t: Seq<char>,
    ki: int,
    cur: usize,
    tail: Seq<Command>,
    s: Session,
) -> bool {
    let p = m[ki];
    if p.tab != cur {
        // It lives in another tab: move it there and wait for the move to be
        // confirmed by a later snapshot; do not reveal it yet.
        &&& tail == seq![
            (Command::MovePaneToTab { id: p.id, tab: cur, clear_focus: false }),
        ]
        &&& s == (Session::Relocating {
            pane_id: p.id,
            target_tab: cur,
            waiting_for_suppressed: false,
            updates: 0,
        })
    } else if p.is_suppressed {
        // Suppressed in the caller's tab: reveal it floating and focused.
        &&& tail == seq![(Command::ShowPane { id: p.id, float_if_hidden: true, focus: true })]
        &&& s is Idle
    } else {
        // Visible in the caller's tab: hide it. If hiding would leave the tab
        // focus-less, hand focus to the first other visible pane there first.
        &&& s is Idle
        &&& if p.is_focused && (exists|o: int|
            0 <= o < m.len() && other_visible_in_tab_at(m, o, cur, l, t)) {
            exists|o: int|
                {
                    &&& 0 <= o < m.len()
                    &&& other_visible_in_tab_at(m, o, cur, l, t)
                    &&& forall|k: int| 0 <= k < o ==> !other_visible_in_tab_at(m, k, cur, l, t)
                    &&& tail == seq![
                        (Command::FocusPane { id: m[o].id }),
                        (Command::HidePane { id: p.id }),
                    ]
                }
        } else {
            tail == seq![(Command::HidePane { id: p.id })]
        }
    }
}

/// `id` belongs to some non-plugin pane among the first `upto` of the
/// snapshot: the ids remembered as "previously known" when a creation session
/// starts.
pub open spec fn known_id_at(m: Seq<Pane>, upto: int, id: u32) -> bool {
    exists|k: int| 0 <= k < upto && #[trigger] m[k].id == id && !m[k].is_plugin
}

/// The full transition a consumed toggle makes, from `pre` (the state with
/// the intent already consumed) to `post`, issuing the commands `r`.
pub open spec fn toggle_decision_post(pre: Butler, post: Butler, r: Seq<Command>, now_ms: u128) -> bool {
    let m = pre.panes->0@;
    let l = pre.launch_command@;
    let t = pre.launch_token@;
    // Only the session, the sticky tracking and the trace may change.
    &&& post.panes == pre.panes
    &&& post.tabs == pre.tabs
    &&& post.ready == pre.ready
    &&& post.permission_result_seen == pre.permission_result_seen
    &&& post.permission_denied == pre.permission_denied
    &&& post.pending_toggle == pre.pending_toggle
    &&& post.launch_command == pre.launch_command
    &&& post.launch_token == pre.launch_token
    &&& post.write_after_launch == pre.write_after_launch
    &&& post.pane_update_count == pre.pane_update_count
    &&& post.tab_update_count == pre.tab_update_count
    &&& post.seen_pane_update == pre.seen_pane_update
    &&& post.seen_tab_update == pre.seen_tab_update
    &&& post.last_cli_toggle_id == pre.last_cli_toggle_id
    &&& post.last_toggle_epoch_ms == pre.last_toggle_epoch_ms
    // At most one companion survives: of any two companion panes in the
    // snapshot, at least one is destroyed by the issued commands.
    &&& forall|a: int, b: int|
        0 <= a < b < m.len() && companion_at(m, a, l, t) && companion_at(m, b, l, t)
            ==> closes_pane(r, m[a].id) || closes_pane(r, m[b].id)
    &&& (if exists|i: int| 0 <= i < m.len() && companion_at(m, i, l, t) {
        // A companion exists: keep the canonical one, destroy the rest, and
        // hide, reveal or relocate the kept one.
        exists|cur: usize, ki: int, nc: int|
            {
                &&& current_tab_ok(m, pre.tabs, l, t, cur)
                &&& keeps_companion(m, l, t, pre.sticky_pane_id, cur, ki)
                &&& closes_prefix_ok(m, l, t, ki, r, nc)
                &&& action_tail_ok(m, l, t, ki, cur, r.subrange(nc, r.len() as int), post.session)
                &&& post.sticky_pane_id == Some(m[ki].id)
                &&& post.sticky_last_seen_ms == now_ms
            }
    } else if pre.sticky_pane_id is Some {
        // No companion in the snapshot, but one was seen recently: treat the
        // snapshot as momentarily stale and reveal the remembered pane.
        &&& r == seq![
            (Command::ShowPane { id: pre.sticky_pane_id->0, float_if_hidden: true, focus: true }),
        ]
        &&& post.session is Idle
        &&& post.sticky_pane_id == pre.sticky_pane_id
        &&& post.sticky_last_seen_ms == pre.sticky_last_seen_ms
    } else {
        // No companion anywhere: launch a fresh one into the caller's tab and
        // start a creation session that watches for it in later snapshots.
        &&& r.len() == 1
        &&& (r[0] matches Command::LaunchPane { path, title, command, floating }
            && path@ == "."@ && title@ == companion_title() && command@ == pre.launch_command@
            && floating == true)
        &&& exists|cur: usize|
            {
                &&& current_tab_ok(m, pre.tabs, l, t, cur)
                &&& (post.session matches Session::AwaitingCreation {
                    target_tab, updates, write_pending, known_ids }
                    && target_tab == Some(cur) && updates == 0
                    && write_pending == pre.write_after_launch
                    && (forall|id: u32| #[trigger] known_ids@.contains(id)
                        <==> known_id_at(m, m.len() as int, id)))
            }
        &&& post.sticky_pane_id == pre.sticky_pane_id
        &&& post.sticky_last_seen_ms == pre.sticky_last_seen_ms
    })
}

impl Butler {
    /// A pending toggle is acted on only when authorization is granted, a
    /// snapshot exists, and no session is in flight.
    pub open spec fn can_run_toggle(self) -> bool {
        self.pending_toggle && self.ready && self.panes is Some && self.session is Idle
    }

    /// Consume the pending toggle intent if the readiness guard allows, and decide.
    pub fn try_run_toggle(&mut self, now_ms: u128) -> (r: Vec<Command>)
        requires
            old(self).wf(),
        ensures
            final(self).wf(),
            !old(self).can_run_toggle() ==> *final(self) == *old(self) && r@.len() == 0,
            old(self).can_run_toggle() ==> toggle_decision_post(
                (Butler { pending_toggle: false, ..*old(self) }),
                *final(self),
                r@,
                now_ms,
            ),
    {
        if !self.pending_toggle || !self.ready {
            return Vec::new();
        }
        if self.panes.is_none() {
            return Vec::new();
        }
        match &self.session {
            Session::Idle => {},
            _ => {
                return Vec::new();
            },
        }
        self.pending_toggle = false;
        self.launch_or_toggle(now_ms)
    }

    /// Decide what this toggle does, as `toggle_decision_post` promises.
    fn launch_or_toggle(&mut self, now_ms: u128) -> (r: Vec<Command>)
        requires
            old(self).wf(),
            old(self).panes is Some,
            old(self).session is Idle,
        ensures
            final(self).wf(),
            toggle_decision_post(*old(self), *final(self), r@, now_ms),
    {
        let ghost gm: Seq<Pane> = old(self).panes->0@;
        let ghost gl: Seq<char> = old(self).launch_command@;
        let ghost gt: Seq<char> = old(self).launch_token@;
        let mut out: Vec<Command> = Vec::new();

        let current_tab: usize;
        let sticky = self.sticky_pane_id;
        {
            let manifest = self.panes.as_ref().unwrap();
            current_tab = match active_tab_index(
                manifest,
                &self.tabs,
                self.launch_command.as_str(),
                self.launch_token.as_str(),
            ) {
                Some(ct) => ct,
                None => 0,
            };
        }
        proof {
            assert(current_tab_ok(gm, old(self).tabs, gl, gt, current_tab));
        }

        let manifest = self.panes.as_ref().unwrap();
        let comps = companion_indices(
            manifest,
            self.launch_command.as_str(),
            self.launch_token.as_str(),
        );
        proof {
            assert(comps_ok(gm, gl, gt, comps@));
        }
        if comps.len() > 0 {
            let keep_pos = choose_canonical(manifest, &comps, sticky, current_tab, Ghost(gl), Ghost(gt));
            let ki: usize = comps[keep_pos];
            let ghost gki: int = ki as int;
            let keep_id = manifest[ki].id;
            let keep_tab = manifest[ki].tab;
            let keep_sup = manifest[ki].is_suppressed;
            let keep_foc = manifest[ki].is_focused;

            // Destroy every companion but the canonical one.
            let mut j: usize = 0;
            while j < comps.len()
                invariant
                    comps_ok(gm, gl, gt, comps@),
                    keep_pos < comps@.len(),
                    gki == comps@[keep_pos as int],
                    0 <= j <= comps@.len(),
                    forall|n: int|
                        0 <= n < out@.len() ==> exists|jj: int|
                            0 <= jj < gm.len() && companion_at(gm, jj, gl, gt) && jj != gki
                                && #[trigger] out@[n] == (Command::ClosePane { id: gm[jj].id }),
                    forall|jj: int|
                        0 <= jj < j && jj != keep_pos ==> closes_pane(
                            out@,
                            gm[comps@[jj] as int].id,
                        ),
                    manifest@ == gm,
                decreases comps@.len() - j,
            {
                if j != keep_pos {
                    let ghost pre_out = out@;
                    out.push(Command::ClosePane { id: manifest[comps[j]].id });
                    proof {
                        let jj = comps@[j as int] as int;
                        if (j as int) < keep_pos as int {
                            assert(comps@[j as int] < comps@[keep_pos as int]);
                        } else {
                            assert(comps@[keep_pos as int] < comps@[j as int]);
                        }
                        assert(out@[out@.len() - 1] == (Command::ClosePane { id: gm[jj].id }));
                        assert forall|jj2: int| 0 <= jj2 < j + 1 && jj2 != keep_pos implies
                            closes_pane(out@, gm[comps@[jj2] as int].id) by {
                            if jj2 < j {
                                let n = choose|n: int|
                                    0 <= n < pre_out.len() && pre_out[n] == (Command::ClosePane {
                                        id: gm[comps@[jj2] as int].id,
                                    });
                                assert(out@[n] == pre_out[n]);
                            } else {
                                assert(out@[out@.len() - 1] == (Command::ClosePane {
                                    id: gm[comps@[jj2] as int].id,
                                }));
                            }
                        }
                    }
                }
                j += 1;
            }
            let ghost nc: int = out@.len() as int;
            proof {
                assert(out@.subrange(0, nc) =~= out@);
                assert forall|jj: int|
                    0 <= jj < gm.len() && companion_at(gm, jj, gl, gt) && jj != gki implies
                    closes_pane(out@.subrange(0, nc), gm[jj].id) by {
                    let pos = choose|pos: int| 0 <= pos < comps@.len() && comps@[pos] == jj;
                    assert(pos != keep_pos as int);
                    assert(closes_pane(out@, gm[comps@[pos] as int].id));
                }
            }
            let ghost closes_done = out@;

            // Act on the canonical companion.
            if keep_tab != current_tab {
                out.push(
                    Command::MovePaneToTab { id: keep_id, tab: current_tab, clear_focus: false },
                );
                self.session = Session::Relocating {
                    pane_id: keep_id,
                    target_tab: current_tab,
                    waiting_for_suppressed: false,
                    updates: 0,
                };
                self.trace.append(now_ms, "toggle: relocating companion to current tab".to_owned());
            } else if keep_sup {
                out.push(Command::ShowPane { id: keep_id, float_if_hidden: true, focus: true });
                self.trace.append(now_ms, "toggle: revealing suppressed companion".to_owned());
            } else {
                if keep_foc {
                    match find_other_visible_in_tab(
                        manifest,
                        current_tab,
                        self.launch_command.as_str(),
                        self.launch_token.as_str(),
                    ) {
                        Some(o) => {
                            out.push(Command::FocusPane { id: manifest[o].id });
                        },
                        None => {},
                    }
                }
                out.push(Command::HidePane { id: keep_id });
                self.trace.append(now_ms, "toggle: hiding companion".to_owned());
            }
            self.sticky_pane_id = Some(keep_id);
            self.sticky_last_seen_ms = now_ms;
            proof {
                assert(out@.subrange(0, nc) =~= closes_done);
                assert(action_tail_ok(
                    gm,
                    gl,
                    gt,
                    gki,
                    current_tab,
                    out@.subrange(nc, out@.len() as int),
                    self.session,
                )) by {
                    if gm[gki].tab != current_tab {
                        assert(out@.subrange(nc, out@.len() as int) =~= seq![
                            (Command::MovePaneToTab {
                                id: gm[gki].id,
                                tab: current_tab,
                                clear_focus: false,
                            }),
                        ]);
                    } else if gm[gki].is_suppressed {
                        assert(out@.subrange(nc, out@.len() as int) =~= seq![
                            (Command::ShowPane {
                                id: gm[gki].id,
                                float_if_hidden: true,
                                focus: true,
                            }),
                        ]);
                    } else {
                        if out@.len() - nc == 2 {
                            assert(out@.subrange(nc, out@.len() as int) =~= seq![
                                out@[nc],
                                (Command::HidePane { id: gm[gki].id }),
                            ]);
                        } else {
                            assert(out@.subrange(nc, out@.len() as int) =~= seq![
                                (Command::HidePane { id: gm[gki].id }),
                            ]);
                        }
                    }
                }
                // The duplicate-destruction bound: of any two companions, at
                // least one is closed.
                assert forall|a: int, b: int|
                    0 <= a < b < gm.len() && companion_at(gm, a, gl, gt) && companion_at(
                        gm,
                        b,
                        gl,
                        gt,
                    ) implies closes_pane(out@, gm[a].id) || closes_pane(out@, gm[b].id) by {
                    if a != gki {
                        assert(closes_pane(closes_done, gm[a].id));
                        lemma_closes_extends(closes_done, out@, gm[a].id);
                    } else {
                        assert(closes_pane(closes_done, gm[b].id));
                        lemma_closes_extends(closes_done, out@, gm[b].id);
                    }
                }
            }
            return out;
        }
        // No companion in the snapshot.
        if comps.len() == 0 {
            proof {
                assert forall|i: int| 0 <= i < gm.len() implies !companion_at(gm, i, gl, gt) by {
                    if companion_at(gm, i, gl, gt) {
                        let j = choose|j: int| 0 <= j < comps@.len() && comps@[j] == i;
                    }
                }
            }
        }
        match self.sticky_pane_id {
            Some(sid) => {
                out.push(Command::ShowPane { id: sid, float_if_hidden: true, focus: true });
                self.trace.append(now_ms, "toggle: revealing remembered companion".to_owned());
                proof {
                    assert(out@ =~= seq![
                        (Command::ShowPane { id: sid, float_if_hidden: true, focus: true }),
                    ]);
                }
                out
            },
            None => {
                let mut known: Vec<u32> = Vec::new();
                let mut i: usize = 0;
                while i < manifest.len()
                    invariant
                        manifest@ == gm,
                        0 <= i <= gm.len(),
                        forall|jj: int|
                            0 <= jj < known@.len() ==> known_id_at(
                                gm,
                                i as int,
                                #[trigger] known@[jj],
                            ),
                        forall|k: int|
                            0 <= k < i && !gm[k].is_plugin ==> known@.contains(gm[k].id),
                    decreases gm.len() - i,
                {
                    let ghost pre_known = known@;
                    if !manifest[i].is_plugin {
                        known.push(manifest[i].id);
                    }
                    proof {
                        assert forall|jj: int| 0 <= jj < known@.len() implies known_id_at(
                            gm,
                            i + 1,
                            #[trigger] known@[jj],
                        ) by {
                            if jj < pre_known.len() {
                                assert(known@[jj] == pre_known[jj]);
                                assert(known_id_at(gm, i as int, pre_known[jj]));
                                let k = choose|k: int|
                                    0 <= k < i && #[trigger] gm[k].id == pre_known[jj]
                                        && !gm[k].is_plugin;
                                assert(gm[k].id == known@[jj] && !gm[k].is_plugin);
                            } else {
                                assert(gm[i as int].id == known@[jj] && !gm[i as int].is_plugin);
                            }
                        }
                        assert forall|k: int| 0 <= k < i + 1 && !gm[k].is_plugin implies
                            known@.contains(gm[k].id) by {
                            if k < i {
                                let jj = choose|jj: int|
                                    0 <= jj < pre_known.len() && pre_known[jj] == gm[k].id;
                                assert(known@[jj] == gm[k].id);
                            } else {
                                assert(known@[known@.len() - 1] == gm[k].id);
                            }
                        }
                    }
                    i += 1;
                }
                let ghost gknown = known@;
                out.push(
                    Command::LaunchPane {
                        path: ".".to_owned(),
                        title: crate::identity::companion_title_str().to_owned(),
                        command: self.launch_command.clone(),
                        floating: true,
                    },
                );
                self.session = Session::AwaitingCreation {
                    target_tab: Some(current_tab),
                    updates: 0,
                    write_pending: self.write_after_launch,
                    known_ids: known,
                };
                self.trace.append(now_ms, "toggle: launching new companion".to_owned());
                proof {
                    assert forall|id: u32| #[trigger] gknown.contains(id) implies known_id_at(
                        gm,
                        gm.len() as int,
                        id,
                    ) by {
                        let jj = choose|jj: int| 0 <= jj < gknown.len() && gknown[jj] == id;
                        assert(known_id_at(gm, gm.len() as int, gknown[jj]));
                    }
                    assert forall|id: u32| known_id_at(gm, gm.len() as int, id) implies
                        #[trigger] gknown.contains(id) by {
                        let k = choose|k: int|
                            0 <= k < gm.len() && #[trigger] gm[k].id == id && !gm[k].is_plugin;
                        assert(gknown.contains(gm[k].id));
                    }
                }
                out
            },
        }
    }
}

/// Destroying commands survive appending more commands.
proof fn lemma_closes_extends(shorter: Seq<Command>, longer: Seq<Command>, id: u32)
    requires
        closes_pane(shorter, id),
        shorter.len() <= longer.len(),
        forall|n: int| 0 <= n < shorter.len() ==> longer[n] == shorter[n],
    ensures
        closes_pane(longer, id),
{
    let n = choose|n: int| 0 <= n < shorter.len() && shorter[n] == (Command::ClosePane { id });
    assert(longer[n] == (Command::ClosePane { id }));
}

} // verus!
