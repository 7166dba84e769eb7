//! Choosing the canonical companion when a snapshot reveals more than one
//! candidate: prefer the one already tracked from a prior cycle, else one in
//! the caller's current tab, else a focused one, else the first; every other
//! candidate is destroyed, never left running.
use vstd::prelude::*;
use crate::identity::companion_at;
use crate::workspace::Pane;

verus! {

/// What `companion_indices` returns: the positions of exactly the companion
/// panes, in increasing snapshot order.
pub open spec fn comps_ok(m: Seq<Pane>, l: Seq<char>, t: Seq<char>, comps: Seq<usize>) -> bool {
    &&& forall|j: int|
        0 <= j < comps.len() ==> comps[j] < m.len() && companion_at(m, comps[j] as int, l, t)
    &&& forall|j: int, k: int| 0 <= j < k < comps.len() ==> comps[j] < comps[k]
    &&& forall|i: int|
        0 <= i < m.len() && companion_at(m, i, l, t) ==> exists|j: int|
            0 <= j < comps.len() && comps[j] == i
}

/// The pane carries the identifier tracked from a prior cycle.
pub open spec fn is_sticky_id(p: Pane, sticky: Option<u32>) -> bool {
    sticky matches Some(s) && p.id == s
}

/// `ki` is the snapshot index of the canonical companion: the first companion
/// in the highest preference class that is inhabited at all.
pub open spec fn keeps_companion(
    m: Seq<Pane>,
    l: Seq<char>,
    t: Seq<char>,
    sticky: Option<u32>,
    cur: usize,
    ki: int,
) -> bool {
    &&& 0 <= ki < m.len()
    &&& companion_at(m, ki, l, t)
    &&& (if exists|i: int|
        0 <= i < m.len() && companion_at(m, i, l, t) && is_sticky_id(m[i], sticky) {
        is_sticky_id(m[ki], sticky) && forall|k: int|
            0 <= k < ki && companion_at(m, k, l, t) ==> !is_sticky_id(m[k], sticky)
    } else if exists|i: int| 0 <= i < m.len() && companion_at(m, i, l, t) && m[i].tab == cur {
        m[ki].tab == cur && forall|k: int|
            0 <= k < ki && companion_at(m, k, l, t) ==> m[k].tab != cur
    } else if exists|i: int| 0 <= i < m.len() && companion_at(m, i, l, t) && m[i].is_focused {
        m[ki].is_focused && forall|k: int|
            0 <= k < ki && companion_at(m, k, l, t) ==> !m[k].is_focused
    } else {
        forall|k: int| 0 <= k < ki ==> !companion_at(m, k, l, t)
    })
}

/// If no listed companion satisfies `cls`, no companion in the snapshot does.
proof fn lemma_no_class_in_comps(
    m: Seq<Pane>,
    l: Seq<char>,
    t: Seq<char>,
    comps: Seq<usize>,
    cls: spec_fn(Pane) -> bool,
)
    requires
        comps_ok(m, l, t, comps),
        forall|j: int| 0 <= j < comps.len() ==> !cls(m[comps[j] as int]),
    ensures
        forall|i: int| 0 <= i < m.len() && companion_at(m, i, l, t) ==> !cls(m[i]),
{
    assert forall|i: int| 0 <= i < m.len() && companion_at(m, i, l, t) implies !cls(m[i]) by {
        let j = choose|j: int| 0 <= j < comps.len() && comps[j] == i;
        assert(!cls(m[comps[j] as int]));
    }
}

/// The first listed companion satisfying `cls` is the first companion in the
/// whole snapshot satisfying `cls`.
proof fn lemma_first_class_in_comps(
    m: Seq<Pane>,
    l: Seq<char>,
    t: Seq<char>,
    comps: Seq<usize>,
    cls: spec_fn(Pane) -> bool,
    pos: int,
)
    requires
        comps_ok(m, l, t, comps),
        0 <= pos < comps.len(),
        cls(m[comps[pos] as int]),
        forall|j: int| 0 <= j < pos ==> !cls(m[comps[j] as int]),
    ensures
        companion_at(m, comps[pos] as int, l, t),
        forall|k: int|
            0 <= k < comps[pos] && companion_at(m, k, l, t) ==> !cls(m[k]),
{
    let ki = comps[pos] as int;
    assert forall|k: int| 0 <= k < ki && companion_at(m, k, l, t) implies !cls(m[k]) by {
        let j = choose|j: int| 0 <= j < comps.len() && comps[j] == k;
        if j > pos {
            assert(comps[pos] < comps[j]);
            assert(false);
        } else if j == pos {
            assert(false);
        }
        assert(!cls(m[comps[j] as int]));
    }
}

/// First listed position whose pane has this identifier.
fn scan_comps_id(manifest: &Vec<Pane>, comps: &Vec<usize>, want: u32) -> (r: Option<usize>)
    requires
        forall|j: int| 0 <= j < comps@.len() ==> comps@[j] < manifest@.len(),
    ensures
        r matches Some(j) ==> j < comps@.len() && manifest@[comps@[j as int] as int].id == want
            && forall|jj: int| 0 <= jj < j ==> manifest@[comps@[jj] as int].id != want,
        r is None ==> forall|jj: int|
            0 <= jj < comps@.len() ==> manifest@[comps@[jj] as int].id != want,
{
    let mut j: usize = 0;
    while j < comps.len()
        invariant
            forall|jj: int| 0 <= jj < comps@.len() ==> comps@[jj] < manifest@.len(),
            0 <= j <= comps@.len(),
            forall|jj: int| 0 <= jj < j ==> manifest@[comps@[jj] as int].id != want,
        decreases comps@.len() - j,
    {
        if manifest[comps[j]].id == want {
            return Some(j);
        }
        j += 1;
    }
    None
}

/// First listed position whose pane sits in this tab.
fn scan_comps_tab(manifest: &Vec<Pane>, comps: &Vec<usize>, want: usize) -> (r: Option<usize>)
    requires
        forall|j: int| 0 <= j < comps@.len() ==> comps@[j] < manifest@.len(),
    ensures
        r matches Some(j) ==> j < comps@.len() && manifest@[comps@[j as int] as int].tab == want
            && forall|jj: int| 0 <= jj < j ==> manifest@[comps@[jj] as int].tab != want,
        r is None ==> forall|jj: int|
            0 <= jj < comps@.len() ==> manifest@[comps@[jj] as int].tab != want,
{
    let mut j: usize = 0;
    while j < comps.len()
        invariant
            forall|jj: int| 0 <= jj < comps@.len() ==> comps@[jj] < manifest@.len(),
            0 <= j <= comps@.len(),
            forall|jj: int| 0 <= jj < j ==> manifest@[comps@[jj] as int].tab != want,
        decreases comps@.len() - j,
    {
        if manifest[comps[j]].tab == want {
            return Some(j);
        }
        j += 1;
    }
    None
}

/// First listed position whose pane is focused.
fn scan_comps_focused(manifest: &Vec<Pane>, comps: &Vec<usize>) -> (r: Option<usize>)
    requires
        forall|j: int| 0 <= j < comps@.len() ==> comps@[j] < manifest@.len(),
    ensures
        r matches Some(j) ==> j < comps@.len() && manifest@[comps@[j as int] as int].is_focused
            && forall|jj: int| 0 <= jj < j ==> !manifest@[comps@[jj] as int].is_focused,
        r is None ==> forall|jj: int|
            0 <= jj < comps@.len() ==> !manifest@[comps@[jj] as int].is_focused,
{
    let mut j: usize = 0;
    while j < comps.len()
        invariant
            forall|jj: int| 0 <= jj < comps@.len() ==> comps@[jj] < manifest@.len(),
            0 <= j <= comps@.len(),
            forall|jj: int| 0 <= jj < j ==> !manifest@[comps@[jj] as int].is_focused,
        decreases comps@.len() - j,
    {
        if manifest[comps[j]].is_focused {
            return Some(j);
        }
        j += 1;
    }
    None
}

/// Pick the position (within `comps`) of the companion to keep canonical.
pub fn choose_canonical(
    manifest: &Vec<Pane>,
    comps: &Vec<usize>,
    sticky: Option<u32>,
    cur: usize,
    launch: Ghost<Seq<char>>,
    token: Ghost<Seq<char>>,
) -> (keep_pos: usize)
    requires
        comps_ok(manifest@, launch@, token@, comps@),
        comps@.len() > 0,
    ensures
        keep_pos < comps@.len(),
        keeps_companion(
            manifest@,
            launch@,
            token@,
            sticky,
            cur,
            comps@[keep_pos as int] as int,
        ),
{
    let ghost m = manifest@;
    let ghost l = launch@;
    let ghost t = token@;
    if let Some(s) = sticky {
        match scan_comps_id(manifest, comps, s) {
            Some(j) => {
                proof {
                    lemma_first_class_in_comps(m, l, t, comps@, |p: Pane| is_sticky_id(p, sticky), j as int);
                }
                return j;
            },
            None => {
                proof {
                    lemma_no_class_in_comps(m, l, t, comps@, |p: Pane| is_sticky_id(p, sticky));
                }
            },
        }
    }
    proof {
        if sticky is None {
            assert(forall|i: int|
                0 <= i < m.len() && companion_at(m, i, l, t) ==> !is_sticky_id(m[i], sticky));
        }
    }
    match scan_comps_tab(manifest, comps, cur) {
        Some(j) => {
            proof {
                lemma_first_class_in_comps(m, l, t, comps@, |p: Pane| p.tab == cur, j as int);
            }
            return j;
        },
        None => {
            proof {
                lemma_no_class_in_comps(m, l, t, comps@, |p: Pane| p.tab == cur);
            }
        },
    }
    match scan_comps_focused(manifest, comps) {
        Some(j) => {
            proof {
                lemma_first_class_in_comps(m, l, t, comps@, |p: Pane| p.is_focused, j as int);
            }
            return j;
        },
        None => {
            proof {
                lemma_no_class_in_comps(m, l, t, comps@, |p: Pane| p.is_focused);
            }
        },
    }
    proof {
        lemma_first_class_in_comps(m, l, t, comps@, |p: Pane| true, 0);
    }
    0
}

} // verus!
