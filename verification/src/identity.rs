//! The companion identity resolver: the pure predicate deciding whether an
//! observed pane is the companion terminal, and the snapshot searches the
//! orchestrator makes its decisions from.
use vstd::prelude::*;
use crate::strings::{has_substring, str_has_substring};
use crate::workspace::{Pane, Tab, pane_usable};

verus! {

/// The well-known title every companion pane carries.
pub open spec fn companion_title() -> Seq<char> {
    "Jelly J"@
}

pub fn companion_title_str() -> (s: &'static str)
    ensures
        s@ == companion_title(),
{
    "Jelly J"
}

/// The launch command used when the configuration supplies none.
pub open spec fn default_launch_command() -> Seq<char> {
    "jelly-j"@
}

pub fn default_launch_command_str() -> (s: &'static str)
    ensures
        s@ == default_launch_command(),
{
    "jelly-j"
}

/// A pane is the companion iff it is usable and either carries the well-known
/// title, or its recorded start command contains the configured launch command
/// or that command's leading executable token. The loose substring match
/// tolerates hosts that report the command with extra shell wrapping.
pub open spec fn spec_is_companion(p: Pane, launch: Seq<char>, token: Seq<char>) -> bool {
    &&& pane_usable(p)
    &&& {
        ||| p.title@ == companion_title()
        ||| (p.command matches Some(c) && has_substring(c@, launch))
        ||| (p.command matches Some(c) && has_substring(c@, token))
    }
}

pub fn is_companion_pane(p: &Pane, launch: &str, token: &str) -> (r: bool)
    ensures
        r == spec_is_companion(*p, launch@, token@),
{
    if p.exited || p.is_plugin {
        return false;
    }
    let title: String = companion_title_str().to_owned();
    if p.title == title {
        return true;
    }
    match &p.command {
        Some(c) => str_has_substring(c.as_str(), launch) || str_has_substring(c.as_str(), token),
        None => false,
    }
}

/// Index `i` of the snapshot holds a companion pane.
pub open spec fn companion_at(m: Seq<Pane>, i: int, launch: Seq<char>, token: Seq<char>) -> bool {
    spec_is_companion(m[i], launch, token)
}

/// Index `i` holds a companion pane that is focused and not suppressed.
pub open spec fn focused_visible_companion_at(
    m: Seq<Pane>,
    i: int,
    launch: Seq<char>,
    token: Seq<char>,
) -> bool {
    spec_is_companion(m[i], launch, token) && m[i].is_focused && !m[i].is_suppressed
}

/// Index `i` holds a usable focused pane that is not the companion.
pub open spec fn focused_noncompanion_at(
    m: Seq<Pane>,
    i: int,
    launch: Seq<char>,
    token: Seq<char>,
) -> bool {
    pane_usable(m[i]) && m[i].is_focused && !spec_is_companion(m[i], launch, token)
}

/// Index `i` holds a usable focused pane.
pub open spec fn focused_usable_at(m: Seq<Pane>, i: int) -> bool {
    pane_usable(m[i]) && m[i].is_focused
}

/// Index `i` holds a usable pane with identifier `id`.
pub open spec fn pane_with_id_at(m: Seq<Pane>, i: int, id: u32) -> bool {
    pane_usable(m[i]) && m[i].id == id
}

/// Index `i` holds a usable, visible pane in tab `tab` that is not the
/// companion: a pane focus can be handed to before the companion is hidden.
pub open spec fn other_visible_in_tab_at(
    m: Seq<Pane>,
    i: int,
    tab: usize,
    launch: Seq<char>,
    token: Seq<char>,
) -> bool {
    &&& pane_usable(m[i])
    &&& !m[i].is_suppressed
    &&& m[i].tab == tab
    &&& !spec_is_companion(m[i], launch, token)
}

/// The indices of every companion pane in the snapshot, in snapshot order.
pub fn companion_indices(manifest: &Vec<Pane>, launch: &str, token: &str) -> (r: Vec<usize>)
    ensures
        forall|j: int|
            0 <= j < r@.len() ==> r@[j] < manifest@.len() && companion_at(
                manifest@,
                r@[j] as int,
                launch@,
                token@,
            ),
        forall|j: int, k: int| 0 <= j < k < r@.len() ==> r@[j] < r@[k],
        forall|i: int|
            0 <= i < manifest@.len() && companion_at(manifest@, i, launch@, token@)
                ==> exists|j: int| 0 <= j < r@.len() && r@[j] == i,
{
    let mut r: Vec<usize> = Vec::new();
    let mut i: usize = 0;
    while i < manifest.len()
        invariant
            0 <= i <= manifest@.len(),
            forall|j: int|
                0 <= j < r@.len() ==> r@[j] < i && companion_at(
                    manifest@,
                    r@[j] as int,
                    launch@,
                    token@,
                ),
            forall|j: int, k: int| 0 <= j < k < r@.len() ==> r@[j] < r@[k],
            forall|ii: int|
                0 <= ii < i && companion_at(manifest@, ii, launch@, token@)
                    ==> exists|j: int| 0 <= j < r@.len() && r@[j] == ii,
        decreases manifest@.len() - i,
    {
        let ghost old_r = r@;
        let c = is_companion_pane(&manifest[i], launch, token);
        if c {
            r.push(i);
        }
        proof {
            assert forall|ii: int| 0 <= ii < i + 1 && companion_at(manifest@, ii, launch@, token@)
                implies exists|j: int| 0 <= j < r@.len() && r@[j] == ii by {
                if ii < i {
                    let j = choose|j: int| 0 <= j < old_r.len() && old_r[j] == ii;
                    assert(r@[j] == ii);
                } else {
                    assert(r@[r@.len() - 1] == ii);
                }
            }
        }
        i += 1;
    }
    r
}

/// The first companion pane that is focused and visible, if any:
/// the pane a toggle should simply hide.
pub fn find_focused_visible_companion(manifest: &Vec<Pane>, launch: &str, token: &str) -> (r:
    Option<usize>)
    ensures
        r matches Some(i) ==> i < manifest@.len() && focused_visible_companion_at(
            manifest@,
            i as int,
            launch@,
            token@,
        ) && forall|k: int|
            0 <= k < i ==> !focused_visible_companion_at(manifest@, k, launch@, token@),
        r is None ==> forall|k: int|
            0 <= k < manifest@.len() ==> !focused_visible_companion_at(
                manifest@,
                k,
                launch@,
                token@,
            ),
{
    let mut i: usize = 0;
    while i < manifest.len()
        invariant
            0 <= i <= manifest@.len(),
            forall|k: int|
                0 <= k < i ==> !focused_visible_companion_at(manifest@, k, launch@, token@),
        decreases manifest@.len() - i,
    {
        let p = &manifest[i];
        if is_companion_pane(p, launch, token) && p.is_focused && !p.is_suppressed {
            return Some(i);
        }
        i += 1;
    }
    None
}

/// The first companion pane in the snapshot, if any.
pub fn find_first_companion(manifest: &Vec<Pane>, launch: &str, token: &str) -> (r: Option<usize>)
    ensures
        r matches Some(i) ==> i < manifest@.len() && companion_at(
            manifest@,
            i as int,
            launch@,
            token@,
        ) && forall|k: int| 0 <= k < i ==> !companion_at(manifest@, k, launch@, token@),
        r is None ==> forall|k: int|
            0 <= k < manifest@.len() ==> !companion_at(manifest@, k, launch@, token@),
{
    let mut i: usize = 0;
    while i < manifest.len()
        invariant
            0 <= i <= manifest@.len(),
            forall|k: int| 0 <= k < i ==> !companion_at(manifest@, k, launch@, token@),
        decreases manifest@.len() - i,
    {
        if is_companion_pane(&manifest[i], launch, token) {
            return Some(i);
        }
        i += 1;
    }
    None
}

/// The first usable pane with the given identifier, if any.
pub fn find_pane_by_id(manifest: &Vec<Pane>, id: u32) -> (r: Option<usize>)
    ensures
        r matches Some(i) ==> i < manifest@.len() && pane_with_id_at(manifest@, i as int, id)
            && forall|k: int| 0 <= k < i ==> !pane_with_id_at(manifest@, k, id),
        r is None ==> forall|k: int|
            0 <= k < manifest@.len() ==> !pane_with_id_at(manifest@, k, id),
{
    let mut i: usize = 0;
    while i < manifest.len()
        invariant
            0 <= i <= manifest@.len(),
            forall|k: int| 0 <= k < i ==> !pane_with_id_at(manifest@, k, id),
        decreases manifest@.len() - i,
    {
        let p = &manifest[i];
        if p.id == id && !p.exited && !p.is_plugin {
            return Some(i);
        }
        i += 1;
    }
    None
}

/// The first usable, visible, non-companion pane in the given tab, if any.
pub fn find_other_visible_in_tab(manifest: &Vec<Pane>, tab: usize, launch: &str, token: &str) -> (r:
    Option<usize>)
    ensures
        r matches Some(i) ==> i < manifest@.len() && other_visible_in_tab_at(
            manifest@,
            i as int,
            tab,
            launch@,
            token@,
        ) && forall|k: int|
            0 <= k < i ==> !other_visible_in_tab_at(manifest@, k, tab, launch@, token@),
        r is None ==> forall|k: int|
            0 <= k < manifest@.len() ==> !other_visible_in_tab_at(
                manifest@,
                k,
                tab,
                launch@,
                token@,
            ),
{
    let mut i: usize = 0;
    while i < manifest.len()
        invariant
            0 <= i <= manifest@.len(),
            forall|k: int| 0 <= k < i ==> !other_visible_in_tab_at(manifest@, k, tab, launch@, token@),
        decreases manifest@.len() - i,
    {
        let p = &manifest[i];
        if !p.exited && !p.is_plugin && !p.is_suppressed && p.tab == tab && !is_companion_pane(
            p,
            launch,
            token,
        ) {
            return Some(i);
        }
        i += 1;
    }
    None
}

/// What `active_tab_index` promises: the preference order for the caller's
/// current tab. First the tab of the first usable focused pane that is not
/// the companion (so a toggle does not follow the companion itself); else the
/// tab of the first usable focused pane; else the first tab the host marks
/// active; else the lowest tab index seen in the snapshot; else nothing.
pub open spec fn active_tab_post(
    m: Seq<Pane>,
    tabs: Option<Vec<Tab>>,
    launch: Seq<char>,
    token: Seq<char>,
    r: Option<usize>,
) -> bool {
    if exists|i: int| 0 <= i < m.len() && focused_noncompanion_at(m, i, launch, token) {
        exists|i: int|
            {
                &&& 0 <= i < m.len()
                &&& focused_noncompanion_at(m, i, launch, token)
                &&& forall|k: int| 0 <= k < i ==> !focused_noncompanion_at(m, k, launch, token)
                &&& r == Some(m[i].tab)
            }
    } else if exists|i: int| 0 <= i < m.len() && focused_usable_at(m, i) {
        exists|i: int|
            {
                &&& 0 <= i < m.len()
                &&& focused_usable_at(m, i)
                &&& forall|k: int| 0 <= k < i ==> !focused_usable_at(m, k)
                &&& r == Some(m[i].tab)
            }
    } else if tabs matches Some(ts) && exists|j: int| 0 <= j < ts@.len() && ts@[j].active {
        tabs matches Some(ts) && exists|j: int|
            {
                &&& 0 <= j < ts@.len()
                &&& ts@[j].active
                &&& forall|k: int| 0 <= k < j ==> !ts@[k].active
                &&& r == Some(ts@[j].position)
            }
    } else if m.len() > 0 {
        exists|i: int|
            {
                &&& 0 <= i < m.len()
                &&& r == Some(m[i].tab)
                &&& forall|k: int| 0 <= k < m.len() ==> m[i].tab <= m[k].tab
            }
    } else {
        r is None
    }
}

/// The tab a toggle should treat as the caller's current tab.
pub fn active_tab_index(
    manifest: &Vec<Pane>,
    tabs: &Option<Vec<Tab>>,
    launch: &str,
    token: &str,
) -> (r: Option<usize>)
    ensures
        active_tab_post(manifest@, *tabs, launch@, token@, r),
{
    let mut i: usize = 0;
    while i < manifest.len()
        invariant
            0 <= i <= manifest@.len(),
            forall|k: int| 0 <= k < i ==> !focused_noncompanion_at(manifest@, k, launch@, token@),
        decreases manifest@.len() - i,
    {
        let p = &manifest[i];
        if !p.exited && !p.is_plugin && p.is_focused && !is_companion_pane(p, launch, token) {
            assert(focused_noncompanion_at(manifest@, i as int, launch@, token@));
            return Some(p.tab);
        }
        i += 1;
    }
    let mut i: usize = 0;
    while i < manifest.len()
        invariant
            0 <= i <= manifest@.len(),
            forall|k: int| 0 <= k < i ==> !focused_noncompanion_at(manifest@, k, launch@, token@),
            forall|k: int| 0 <= k < i ==> !focused_usable_at(manifest@, k),
            forall|k: int|
                0 <= k < manifest@.len() ==> !focused_noncompanion_at(manifest@, k, launch@, token@),
        decreases manifest@.len() - i,
    {
        let p = &manifest[i];
        if !p.exited && !p.is_plugin && p.is_focused {
            assert(focused_usable_at(manifest@, i as int));
            return Some(p.tab);
        }
        i += 1;
    }
    match tabs {
        Some(ts) => {
            let mut j: usize = 0;
            while j < ts.len()
                invariant
                    tabs is Some && tabs->0 == *ts,
                    0 <= j <= ts@.len(),
                    forall|k: int| 0 <= k < j ==> !ts@[k].active,
                    forall|k: int|
                        0 <= k < manifest@.len() ==> !focused_noncompanion_at(
                            manifest@,
                            k,
                            launch@,
                            token@,
                        ),
                    forall|k: int| 0 <= k < manifest@.len() ==> !focused_usable_at(manifest@, k),
                decreases ts@.len() - j,
            {
                if ts[j].active {
                    return Some(ts[j].position);
                }
                j += 1;
            }
        },
        None => {},
    }
    if manifest.len() == 0 {
        return None;
    }
    let mut best: usize = manifest[0].tab;
    let ghost mut best_at: int = 0;
    let mut i: usize = 1;
    while i < manifest.len()
        invariant
            1 <= i <= manifest@.len(),
            0 <= best_at < manifest@.len(),
            best == manifest@[best_at].tab,
            forall|k: int| 0 <= k < i ==> best <= manifest@[k].tab,
        decreases manifest@.len() - i,
    {
        if manifest[i].tab < best {
            best = manifest[i].tab;
            proof {
                best_at = i as int;
            }
        }
        i += 1;
    }
    Some(best)
}

} // verus!
