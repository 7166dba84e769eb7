//! Advancing a creation session on each snapshot: recognize "the pane we just
//! created" among unrelated concurrent churn, by graduated relaxation — first
//! demand an unseen floating companion in the target tab, then weaken the
//! demand step by step, because right after a launch the new pane may not yet
//! be floating or may momentarily appear in the wrong tab. Waiting strictly
//! for the perfect match would deadlock on hosts with different placement
//! semantics; waiting forever is bounded by the session budget.
use vstd::prelude::*;
use crate::butler::Butler;
use crate::identity::{
    active_tab_index, active_tab_post, companion_title, companion_title_str, is_companion_pane,
    spec_is_companion,
};
use crate::protocol::Command;
use crate::session::{Session, SESSION_TRACE_INTERVAL, SESSION_UPDATE_BUDGET};
use crate::workspace::{Pane, Tab};

verus! {

/// After this many fruitless snapshots, any unseen pane in the target tab is
/// accepted, floating or not.
pub const CREATION_RELAX_TAB_AFTER: u16 = 4;

/// After this many fruitless snapshots, any unseen pane anywhere is accepted.
pub const CREATION_RELAX_ANY_AFTER: u16 = 6;

/// The pane at `i` is unseen (its id was not known before the launch), not a
/// plugin surface, and not exited.
pub open spec fn new_at(m: Seq<Pane>, i: int, known: Seq<u32>) -> bool {
    !m[i].is_plugin && !m[i].exited && !known.contains(m[i].id)
}

/// One relaxation step of the candidate filter: optionally demand floating,
/// a particular tab, and companion identity.
pub open spec fn scan_cls(
    p: Pane,
    need_floating: bool,
    need_tab: Option<usize>,
    need_companion: bool,
    l: Seq<char>,
    t: Seq<char>,
) -> bool {
    &&& (need_floating ==> p.is_floating)
    &&& (need_tab matches Some(tt) ==> p.tab == tt)
    &&& (need_companion ==> spec_is_companion(p, l, t))
}

pub open spec fn exists_new_cls(
    m: Seq<Pane>,
    known: Seq<u32>,
    nf: bool,
    nt: Option<usize>,
    ncomp: bool,
    l: Seq<char>,
    t: Seq<char>,
) -> bool {
    exists|i: int| 0 <= i < m.len() && new_at(m, i, known) && scan_cls(m[i], nf, nt, ncomp, l, t)
}

pub open spec fn first_new_cls(
    m: Seq<Pane>,
    known: Seq<u32>,
    nf: bool,
    nt: Option<usize>,
    ncomp: bool,
    l: Seq<char>,
    t: Seq<char>,
    ci: int,
) -> bool {
    &&& 0 <= ci < m.len()
    &&& new_at(m, ci, known)
    &&& scan_cls(m[ci], nf, nt, ncomp, l, t)
    &&& forall|k: int|
        0 <= k < ci ==> !(new_at(m, k, known) && scan_cls(m[k], nf, nt, ncomp, l, t))
}

/// Which pane a creation session binds to, if any: the first pane passing the
/// strongest relaxation step that passes at all, with the later steps opened
/// only after enough fruitless snapshots.
pub open spec fn creation_candidate_ok(
    m: Seq<Pane>,
    known: Seq<u32>,
    teff: Option<usize>,
    u: u16,
    l: Seq<char>,
    t: Seq<char>,
    ci: int,
) -> bool {
    match teff {
        Some(tt) => if exists_new_cls(m, known, true, Some(tt), true, l, t) {
            first_new_cls(m, known, true, Some(tt), true, l, t, ci)
        } else if exists_new_cls(m, known, true, None, true, l, t) {
            first_new_cls(m, known, true, None, true, l, t, ci)
        } else if exists_new_cls(m, known, true, Some(tt), false, l, t) {
            first_new_cls(m, known, true, Some(tt), false, l, t, ci)
        } else if u >= CREATION_RELAX_TAB_AFTER && exists_new_cls(
            m,
            known,
            false,
            Some(tt),
            false,
            l,
            t,
        ) {
            first_new_cls(m, known, false, Some(tt), false, l, t, ci)
        } else if u >= CREATION_RELAX_ANY_AFTER && exists_new_cls(
            m,
            known,
            false,
            None,
            false,
            l,
            t,
        ) {
            first_new_cls(m, known, false, None, false, l, t, ci)
        } else {
            false
        },
        None => if exists_new_cls(m, known, true, None, true, l, t) {
            first_new_cls(m, known, true, None, true, l, t, ci)
        } else if exists_new_cls(m, known, true, None, false, l, t) {
            first_new_cls(m, known, true, None, false, l, t, ci)
        } else if u >= CREATION_RELAX_ANY_AFTER && exists_new_cls(
            m,
            known,
            false,
            None,
            false,
            l,
            t,
        ) {
            first_new_cls(m, known, false, None, false, l, t, ci)
        } else {
            false
        },
    }
}

pub open spec fn has_creation_candidate(
    m: Seq<Pane>,
    known: Seq<u32>,
    teff: Option<usize>,
    u: u16,
    l: Seq<char>,
    t: Seq<char>,
) -> bool {
    exists|ci: int| creation_candidate_ok(m, known, teff, u, l, t, ci)
}

/// The tab a creation session aims at: the one remembered when the session
/// started, or the current active tab when none was remembered.
pub open spec fn eff_target_ok(
    m: Seq<Pane>,
    tabs: Option<Vec<Tab>>,
    l: Seq<char>,
    t: Seq<char>,
    declared: Option<usize>,
    teff: Option<usize>,
) -> bool {
    match declared {
        Some(tt) => teff == Some(tt),
        None => active_tab_post(m, tabs, l, t, teff),
    }
}

/// The commands a bind issues when the candidate is already where it belongs:
/// rename it to the well-known title, type the launch command if that step is
/// still pending, and reveal it floating and focused.
pub open spec fn bind_stay_ok(p: Pane, wp: bool, launch: Seq<char>, r: Seq<Command>) -> bool {
    &&& r.len() == (if wp {
        3int
    } else {
        2int
    })
    &&& (r[0] matches Command::RenamePane { id, name } && id == p.id && name@
        == companion_title())
    &&& (wp ==> (r[1] matches Command::WriteToPane { id, text } && id == p.id && text@ == launch))
    &&& r[r.len() - 1] == (Command::ShowPane { id: p.id, float_if_hidden: true, focus: true })
}

/// The commands a bind issues when the candidate appeared in the wrong tab:
/// move it, rename it, type the pending command — but do not reveal it; the
/// relocation session this hands over to will reveal it on arrival.
pub open spec fn bind_move_ok(p: Pane, tt: usize, wp: bool, launch: Seq<char>, r: Seq<Command>) -> bool {
    &&& r.len() == (if wp {
        3int
    } else {
        2int
    })
    &&& r[0] == (Command::MovePaneToTab { id: p.id, tab: tt, clear_focus: false })
    &&& (r[1] matches Command::RenamePane { id, name } && id == p.id && name@
        == companion_title())
    &&& (wp ==> (r[2] matches Command::WriteToPane { id, text } && id == p.id && text@ == launch))
}

/// The full transition one snapshot makes while a creation is in flight.
pub open spec fn creation_step_post(pre: Butler, post: Butler, r: Seq<Command>) -> bool {
    let m = pre.panes->0@;
    let l = pre.launch_command@;
    let t = pre.launch_token@;
    pre.session matches Session::AwaitingCreation {
        target_tab,
        updates,
        write_pending,
        known_ids,
    } ==> {
        &&& pre.same_but_session_and_trace(post)
        &&& exists|teff: Option<usize>|
            {
                &&& eff_target_ok(m, pre.tabs, l, t, target_tab, teff)
                &&& (if has_creation_candidate(m, known_ids@, teff, updates, l, t) {
                    exists|ci: int|
                        {
                            &&& creation_candidate_ok(m, known_ids@, teff, updates, l, t, ci)
                            &&& (match teff {
                                Some(tt) => if m[ci].tab != tt {
                                    &&& bind_move_ok(m[ci], tt, write_pending, l, r)
                                    &&& post.session == (Session::Relocating {
                                        pane_id: m[ci].id,
                                        target_tab: tt,
                                        waiting_for_suppressed: false,
                                        updates: 0,
                                    })
                                } else {
                                    &&& bind_stay_ok(m[ci], write_pending, l, r)
                                    &&& post.session is Idle
                                },
                                None => {
                                    &&& bind_stay_ok(m[ci], write_pending, l, r)
                                    &&& post.session is Idle
                                },
                            })
                        }
                } else {
                    &&& r == Seq::<Command>::empty()
                    &&& post.session == (if updates + 1 > SESSION_UPDATE_BUDGET {
                        Session::Idle
                    } else {
                        Session::AwaitingCreation {
                            target_tab,
                            updates: (updates + 1) as u16,
                            write_pending,
                            known_ids,
                        }
                    })
                })
            }
    }
}

/// Is this id among the ones known before the launch?
fn id_known(known: &Vec<u32>, id: u32) -> (r: bool)
    ensures
        r == known@.contains(id),
{
    let mut i: usize = 0;
    while i < known.len()
        invariant
            0 <= i <= known@.len(),
            forall|k: int| 0 <= k < i ==> known@[k] != id,
        decreases known@.len() - i,
    {
        if known[i] == id {
            return true;
        }
        i += 1;
    }
    false
}

/// Find the first unseen pane passing one relaxation step of the filter.
fn scan_new(
    manifest: &Vec<Pane>,
    known: &Vec<u32>,
    need_floating: bool,
    need_tab: Option<usize>,
    need_companion: bool,
    launch: &str,
    token: &str,
) -> (r: Option<usize>)
    ensures
        r matches Some(i) ==> i < manifest@.len() && first_new_cls(
            manifest@,
            known@,
            need_floating,
            need_tab,
            need_companion,
            launch@,
            token@,
            i as int,
        ),
        r is None ==> !exists_new_cls(
            manifest@,
            known@,
            need_floating,
            need_tab,
            need_companion,
            launch@,
            token@,
        ),
{
    let mut i: usize = 0;
    while i < manifest.len()
        invariant
            0 <= i <= manifest@.len(),
            forall|k: int|
                0 <= k < i ==> !(new_at(manifest@, k, known@) && scan_cls(
                    manifest@[k],
                    need_floating,
                    need_tab,
                    need_companion,
                    launch@,
                    token@,
                )),
        decreases manifest@.len() - i,
    {
        let p = &manifest[i];
        let tab_ok = match need_tab {
            Some(tt) => p.tab == tt,
            None => true,
        };
        if !p.is_plugin && !p.exited && (!need_floating || p.is_floating) && tab_ok && (
        !need_companion || is_companion_pane(p, launch, token)) && !id_known(known, p.id) {
            return Some(i);
        }
        i += 1;
    }
    None
}

impl Butler {
    /// Advance the creation session against the latest snapshot: bind the new
    /// pane if one can be recognized, otherwise count the fruitless snapshot
    /// and abandon once the budget is spent. The session measure strictly
    /// decreases, so the session reaches idle within a bounded number of
    /// snapshots whether or not the expected pane ever appears.
    pub fn bind_new_companion_pane(&mut self, now_ms: u128) -> (r: Vec<Command>)
        requires
            old(self).wf(),
            old(self).session is AwaitingCreation,
            old(self).panes is Some,
        ensures
            final(self).wf(),
            creation_step_post(*old(self), *final(self), r@),
            final(self).session.measure() < old(self).session.measure(),
    {
        let mut taken = Session::Idle;
        core::mem::swap(&mut taken, &mut self.session);
        let (target_tab, updates, write_pending, known_ids) = match taken {
            Session::AwaitingCreation { target_tab, updates, write_pending, known_ids } => (
                target_tab,
                updates,
                write_pending,
                known_ids,
            ),
            _ => {
                proof {
                    assert(false);
                }
                (None, 0u16, false, Vec::new())
            },
        };
        let ghost gknown = known_ids@;
        let ghost gm: Seq<Pane> = old(self).panes->0@;
        let ghost gl: Seq<char> = old(self).launch_command@;
        let ghost gt: Seq<char> = old(self).launch_token@;
        let mut out: Vec<Command> = Vec::new();
        let manifest = self.panes.as_ref().unwrap();
        let teff: Option<usize> = match target_tab {
            Some(tt) => Some(tt),
            None => active_tab_index(
                manifest,
                &self.tabs,
                self.launch_command.as_str(),
                self.launch_token.as_str(),
            ),
        };
        let launch = self.launch_command.as_str();
        let token = self.launch_token.as_str();
        let cand: Option<usize> = match teff {
            Some(tt) => {
                let c1 = scan_new(manifest, &known_ids, true, Some(tt), true, launch, token);
                if c1.is_some() {
                    c1
                } else {
                    let c2 = scan_new(manifest, &known_ids, true, None, true, launch, token);
                    if c2.is_some() {
                        c2
                    } else {
                        let c3 = scan_new(manifest, &known_ids, true, Some(tt), false, launch, token);
                        if c3.is_some() {
                            c3
                        } else {
                            let c4 = if updates >= CREATION_RELAX_TAB_AFTER {
                                scan_new(manifest, &known_ids, false, Some(tt), false, launch, token)
                            } else {
                                None
                            };
                            if c4.is_some() {
                                c4
                            } else {
                                if updates >= CREATION_RELAX_ANY_AFTER {
                                    scan_new(manifest, &known_ids, false, None, false, launch, token)
                                } else {
                                    None
                                }
                            }
                        }
                    }
                }
            },
            None => {
                let c1 = scan_new(manifest, &known_ids, true, None, true, launch, token);
                if c1.is_some() {
                    c1
                } else {
                    let c2 = scan_new(manifest, &known_ids, true, None, false, launch, token);
                    if c2.is_some() {
                        c2
                    } else {
                        if updates >= CREATION_RELAX_ANY_AFTER {
                            scan_new(manifest, &known_ids, false, None, false, launch, token)
                        } else {
                            None
                        }
                    }
                }
            },
        };
        match cand {
            Some(ci) => {
                let id = manifest[ci].id;
                let ctab = manifest[ci].tab;
                let mut move_to: Option<usize> = None;
                match teff {
                    Some(tt) => {
                        if ctab != tt {
                            move_to = Some(tt);
                        }
                    },
                    None => {},
                }
                match move_to {
                    Some(tt) => {
                        out.push(
                            Command::MovePaneToTab { id, tab: tt, clear_focus: false },
                        );
                    },
                    None => {},
                }
                out.push(Command::RenamePane { id, name: companion_title_str().to_owned() });
                if write_pending {
                    out.push(Command::WriteToPane { id, text: self.launch_command.clone() });
                }
                match move_to {
                    Some(tt) => {
                        self.session = Session::Relocating {
                            pane_id: id,
                            target_tab: tt,
                            waiting_for_suppressed: false,
                            updates: 0,
                        };
                        self.trace.append(
                            now_ms,
                            "creation: bound new pane, moving it to the target tab".to_owned(),
                        );
                        proof {
                            assert(creation_candidate_ok(gm, gknown, teff, updates, gl, gt, ci as int));
                            assert(out@.len() == (if write_pending { 3int } else { 2int }));
                            assert(out@[0] == (Command::MovePaneToTab {
                                id: gm[ci as int].id,
                                tab: tt,
                                clear_focus: false,
                            }));
                            assert(bind_move_ok(gm[ci as int], tt, write_pending, gl, out@));
                            assert(eff_target_ok(gm, old(self).tabs, gl, gt, target_tab, teff));
                        }
                    },
                    None => {
                        out.push(Command::ShowPane { id, float_if_hidden: true, focus: true });
                        self.session = Session::Idle;
                        self.trace.append(now_ms, "creation: bound and revealed new pane".to_owned());
                        proof {
                            assert(creation_candidate_ok(gm, gknown, teff, updates, gl, gt, ci as int));
                            assert(out@.len() == (if write_pending { 3int } else { 2int }));
                            assert(bind_stay_ok(gm[ci as int], write_pending, gl, out@));
                            assert(eff_target_ok(gm, old(self).tabs, gl, gt, target_tab, teff));
                        }
                    },
                }
            },
            None => {
                let nu = updates + 1;
                if nu > SESSION_UPDATE_BUDGET {
                    self.session = Session::Idle;
                    self.trace.append(now_ms, "creation abandoned: budget exhausted".to_owned());
                } else {
                    self.session = Session::AwaitingCreation {
                        target_tab,
                        updates: nu,
                        write_pending,
                        known_ids,
                    };
                    if nu % SESSION_TRACE_INTERVAL == 0 {
                        self.trace.append(now_ms, "creation still waiting for the pane".to_owned());
                    }
                }
                proof {
                    assert(out@ =~= Seq::<Command>::empty());
                    assert(!has_creation_candidate(gm, gknown, teff, updates, gl, gt));
                    assert(eff_target_ok(gm, old(self).tabs, gl, gt, target_tab, teff));
                }
            },
        }
        out
    }
}

} // verus!
