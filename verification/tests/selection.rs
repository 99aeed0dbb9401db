use filechooser::paths::ResolvedPath;
use filechooser::selection::{SelectMode, SelectionManager};

fn rp(raw: &str) -> ResolvedPath {
    ResolvedPath::resolved(raw.to_string(), raw.to_string())
}

fn selected_texts(s: &SelectionManager) -> Vec<String> {
    s.selected.clone()
}

#[test]
fn toggle_on_then_off_restores_multi_selection() {
    let mut s = SelectionManager::new(SelectMode::MultiSelect);
    s.toggle(rp("/d/a"), true);
    s.toggle(rp("/d/keep"), true);
    let before = selected_texts(&s);
    s.toggle(rp("/d/x"), true);
    s.toggle(rp("/d/x"), false);
    let mut after = selected_texts(&s);
    let mut want = before.clone();
    want.sort();
    after.sort();
    assert_eq!(after, want);
}

#[test]
fn toggle_on_twice_is_idempotent() {
    let mut s = SelectionManager::new(SelectMode::MultiSelect);
    s.toggle(rp("/d/a"), true);
    s.toggle(rp("/d/a"), true);
    assert_eq!(selected_texts(&s), vec!["/d/a"]);
}

#[test]
fn toggle_off_absent_is_noop() {
    let mut s = SelectionManager::new(SelectMode::MultiSelect);
    s.toggle(rp("/d/a"), true);
    s.toggle(rp("/d/other"), false);
    assert_eq!(selected_texts(&s), vec!["/d/a"]);
}

#[test]
fn single_select_replaces_current() {
    let mut s = SelectionManager::new(SelectMode::SingleSelect);
    s.toggle(rp("/d/a"), true);
    s.toggle(rp("/d/b"), true);
    assert_eq!(selected_texts(&s), vec!["/d/b"]);
    assert_eq!(
        s.active_detail.as_ref().map(|p| p.raw.as_str()),
        Some("/d/b")
    );
}

#[test]
fn activate_twice_clears_detail() {
    let mut s = SelectionManager::new(SelectMode::MultiSelect);
    s.activate(rp("/d/photo.png"));
    assert_eq!(
        s.active_detail.as_ref().map(|p| p.raw.as_str()),
        Some("/d/photo.png")
    );
    s.activate(rp("/d/photo.png"));
    assert!(s.active_detail.is_none());
}

#[test]
fn activate_unresolvable_never_toggles_off() {
    // An unresolvable path is never "the same" as the open detail, so a
    // second activation sets it again instead of clearing.
    let mut s = SelectionManager::new(SelectMode::MultiSelect);
    let ghost_path = ResolvedPath::unresolved("/gone".to_string());
    s.activate(ghost_path);
    let again = ResolvedPath::unresolved("/gone".to_string());
    s.activate(again);
    assert!(s.active_detail.is_some());
}

#[test]
fn activate_in_single_mode_tracks_selection() {
    let mut s = SelectionManager::new(SelectMode::SingleSelect);
    s.activate(rp("/d/a"));
    assert_eq!(selected_texts(&s), vec!["/d/a"]);
    s.activate(rp("/d/a"));
    assert!(s.active_detail.is_none());
    assert!(selected_texts(&s).is_empty());
}

#[test]
fn activate_in_multi_mode_keeps_selection() {
    let mut s = SelectionManager::new(SelectMode::MultiSelect);
    s.toggle(rp("/d/a"), true);
    s.activate(rp("/d/b"));
    assert_eq!(selected_texts(&s), vec!["/d/a"]);
}

#[test]
fn refresh_detail_clears_only_unresolvable() {
    let mut s = SelectionManager::new(SelectMode::MultiSelect);
    s.toggle(rp("/d/a"), true);
    s.activate(rp("/d/a"));
    s.refresh_detail(true);
    assert!(s.active_detail.is_some());
    s.refresh_detail(false);
    assert!(s.active_detail.is_none());
    assert_eq!(selected_texts(&s), vec!["/d/a"]);
}
