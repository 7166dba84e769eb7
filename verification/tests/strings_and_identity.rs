use pane_butler::identity::{
    active_tab_index, companion_indices, companion_title_str, find_focused_visible_companion,
    find_pane_by_id, is_companion_pane,
};
use pane_butler::strings::{leading_token, str_has_substring};
use pane_butler::workspace::{Pane, Tab};

fn pane(id: u32, tab: usize) -> Pane {
    Pane {
        id,
        tab,
        title: String::new(),
        command: None,
        is_plugin: false,
        exited: false,
        is_focused: false,
        is_floating: false,
        is_suppressed: false,
    }
}

#[test]
fn substring_basics() {
    assert!(str_has_substring("hello world", "lo wo"));
    assert!(str_has_substring("hello", "hello"));
    assert!(str_has_substring("hello", ""));
    assert!(str_has_substring("", ""));
    assert!(!str_has_substring("", "a"));
    assert!(!str_has_substring("hello", "hello!"));
    assert!(!str_has_substring("abc", "ac"));
}

#[test]
fn substring_multibyte() {
    assert!(str_has_substring("héllo", "él"));
    assert!(!str_has_substring("héllo", "el"));
}

#[test]
fn leading_token_splits_at_first_space() {
    assert_eq!(leading_token("jelly-j --fast"), "jelly-j");
    assert_eq!(leading_token("solo"), "solo");
    assert_eq!(leading_token(""), "");
    assert_eq!(leading_token(" leading"), "");
}

#[test]
fn companion_by_title() {
    let mut p = pane(1, 0);
    p.title = companion_title_str().to_string();
    assert!(is_companion_pane(&p, "jelly-j", "jelly-j"));
}

#[test]
fn companion_by_command_substring() {
    let mut p = pane(1, 0);
    p.command = Some("zsh -c jelly-j".to_string());
    assert!(is_companion_pane(&p, "jelly-j", "jelly-j"));
}

#[test]
fn companion_by_leading_token() {
    // The full launch command is not contained, but its leading token is.
    let mut p = pane(1, 0);
    p.command = Some("sh -lc jelly-j".to_string());
    assert!(is_companion_pane(&p, "jelly-j --fast", "jelly-j"));
}

#[test]
fn companion_excludes_exited_and_plugins() {
    let mut p = pane(1, 0);
    p.title = companion_title_str().to_string();
    p.exited = true;
    assert!(!is_companion_pane(&p, "jelly-j", "jelly-j"));
    let mut q = pane(2, 0);
    q.title = companion_title_str().to_string();
    q.is_plugin = true;
    assert!(!is_companion_pane(&q, "jelly-j", "jelly-j"));
}

#[test]
fn companion_requires_some_evidence() {
    let p = pane(1, 0);
    assert!(!is_companion_pane(&p, "jelly-j", "jelly-j"));
}

#[test]
fn active_tab_prefers_focused_non_companion() {
    let mut focused = pane(1, 3);
    focused.is_focused = true;
    let mut comp = pane(2, 0);
    comp.title = companion_title_str().to_string();
    comp.is_focused = true;
    let manifest = vec![comp, focused];
    let r = active_tab_index(&manifest, &None, "jelly-j", "jelly-j");
    assert_eq!(r, Some(3));
}

#[test]
fn active_tab_falls_back_to_focused_companion() {
    let mut comp = pane(2, 5);
    comp.title = companion_title_str().to_string();
    comp.is_focused = true;
    let manifest = vec![comp, pane(3, 1)];
    let r = active_tab_index(&manifest, &None, "jelly-j", "jelly-j");
    assert_eq!(r, Some(5));
}

#[test]
fn active_tab_falls_back_to_active_tab_listing() {
    let manifest = vec![pane(1, 4)];
    let tabs = Some(vec![
        Tab {
            position: 0,
            name: "a".to_string(),
            active: false,
            selectable_tiled_panes_count: 0,
            selectable_floating_panes_count: 0,
        },
        Tab {
            position: 2,
            name: "b".to_string(),
            active: true,
            selectable_tiled_panes_count: 1,
            selectable_floating_panes_count: 0,
        },
    ]);
    let r = active_tab_index(&manifest, &tabs, "jelly-j", "jelly-j");
    assert_eq!(r, Some(2));
}

#[test]
fn active_tab_falls_back_to_lowest_tab() {
    let manifest = vec![pane(1, 4), pane(2, 1), pane(3, 7)];
    let r = active_tab_index(&manifest, &None, "jelly-j", "jelly-j");
    assert_eq!(r, Some(1));
}

#[test]
fn active_tab_none_when_nothing_known() {
    let manifest: Vec<Pane> = Vec::new();
    let r = active_tab_index(&manifest, &None, "jelly-j", "jelly-j");
    assert_eq!(r, None);
}

#[test]
fn find_pane_by_id_skips_exited_and_plugins() {
    let mut dead = pane(5, 0);
    dead.exited = true;
    let alive = pane(5, 1);
    let manifest = vec![dead, alive];
    // The exited pane with the same id is passed over.
    assert_eq!(find_pane_by_id(&manifest, 5), Some(1));
    assert_eq!(find_pane_by_id(&manifest, 6), None);
}

#[test]
fn focused_visible_companion_lookup() {
    let mut hidden = pane(1, 0);
    hidden.title = companion_title_str().to_string();
    hidden.is_focused = true;
    hidden.is_suppressed = true;
    let mut shown = pane(2, 1);
    shown.title = companion_title_str().to_string();
    shown.is_focused = true;
    let manifest = vec![hidden, shown];
    // The suppressed one does not count; the first focused visible one does.
    assert_eq!(
        find_focused_visible_companion(&manifest, "jelly-j", "jelly-j"),
        Some(1)
    );
}

#[test]
fn companion_indices_lists_all_matches_in_order() {
    let mut a = pane(1, 0);
    a.title = companion_title_str().to_string();
    let plain = pane(2, 0);
    let mut b = pane(3, 1);
    b.command = Some("jelly-j".to_string());
    let manifest = vec![a, plain, b];
    assert_eq!(companion_indices(&manifest, "jelly-j", "jelly-j"), vec![0, 2]);
}
