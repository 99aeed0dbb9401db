use filechooser::entry::{classify_core, RawEntry, RawMeta};
use filechooser::filter::{can_enter, is_eligible, FilterConfig, MatchKind};
use filechooser::icon::{key_eq, render_as_image, resolve_icon_key, IconCache, IconKey};

fn file_entry(name: &str, icon: &str) -> filechooser::entry::FsInfo {
    classify_core(
        &RawEntry {
            path: format!("/d/{}", name),
            canon: Some(format!("/d/{}", name)),
            name: Some(name.to_string()),
            meta: Some(RawMeta { mode: 0o644, is_dir: false, is_symlink: false }),
            link: None,
        },
        vec!["text/plain".to_string()],
        Some(icon.to_string()),
    )
    .unwrap()
}

fn dir_entry(name: &str) -> filechooser::entry::FsInfo {
    classify_core(
        &RawEntry {
            path: format!("/d/{}", name),
            canon: Some(format!("/d/{}", name)),
            name: Some(name.to_string()),
            meta: Some(RawMeta { mode: 0o755, is_dir: true, is_symlink: false }),
            link: None,
        },
        Vec::new(),
        None,
    )
    .unwrap()
}

#[test]
fn theme_hit_resolves_to_path_key() {
    let e = file_entry("a.txt", "text-x-generic");
    let k = resolve_icon_key(&e, Some("/theme/text.svg".to_string()));
    assert!(key_eq(&k, &IconKey::Path("/theme/text.svg".to_string())));
}

#[test]
fn theme_miss_falls_back_by_kind() {
    let f = resolve_icon_key(&file_entry("a.txt", "text-x-generic"), None);
    assert!(key_eq(&f, &IconKey::Text));
    let d = resolve_icon_key(&dir_entry("sub"), None);
    assert!(key_eq(&d, &IconKey::Dir));
}

#[test]
fn key_eq_distinguishes_paths() {
    assert!(key_eq(&IconKey::Text, &IconKey::Text));
    assert!(!key_eq(&IconKey::Text, &IconKey::Dir));
    assert!(!key_eq(
        &IconKey::Path("/a".to_string()),
        &IconKey::Path("/b".to_string())
    ));
}

#[test]
fn cache_remembers_inserted_handles() {
    let mut cache: IconCache<u32> = IconCache::new();
    assert!(cache.lookup(&IconKey::Text).is_none());
    cache.insert(IconKey::Text, 7);
    cache.insert(IconKey::Path("/theme/a.svg".to_string()), 9);
    assert_eq!(cache.lookup(&IconKey::Text), Some(&7));
    assert_eq!(cache.lookup(&IconKey::Path("/theme/a.svg".to_string())), Some(&9));
    assert!(cache.lookup(&IconKey::Dir).is_none());
    // Existing bindings survive later inserts.
    cache.insert(IconKey::Dir, 11);
    assert_eq!(cache.lookup(&IconKey::Text), Some(&7));
}

#[test]
fn icon_candidates_most_specific_first() {
    let refined = classify_core(
        &RawEntry {
            path: "/d/notes.rst".to_string(),
            canon: None,
            name: Some("notes.rst".to_string()),
            meta: Some(RawMeta { mode: 0o644, is_dir: false, is_symlink: false }),
            link: None,
        },
        vec!["text/x-rst".to_string()],
        Some("text-x-generic".to_string()),
    )
    .unwrap();
    assert_eq!(
        filechooser::icon::icon_name_candidates(&refined),
        vec!["text-x-rst", "text-x-generic"]
    );
    let plain = file_entry("p.png", "image-x-generic");
    assert_eq!(
        filechooser::icon::icon_name_candidates(&plain),
        vec!["image-x-generic"]
    );
    assert_eq!(
        filechooser::icon::icon_name_candidates(&dir_entry("sub")),
        vec!["inode-directory"]
    );
}

#[test]
fn image_preview_gated_by_setting() {
    let img = file_entry("p.png", "image-x-generic");
    assert!(render_as_image(&img, true));
    assert!(!render_as_image(&img, false));
    let txt = file_entry("a.txt", "text-x-generic");
    assert!(!render_as_image(&txt, true));
}

#[test]
fn eligibility_by_kind_and_access() {
    let f = file_entry("a.txt", "text-x-generic");
    let d = dir_entry("sub");
    assert!(is_eligible(&f, false, MatchKind::FileOnly));
    assert!(!is_eligible(&f, false, MatchKind::DirectoryOnly));
    assert!(is_eligible(&d, true, MatchKind::DirectoryOnly));
    assert!(!is_eligible(&d, false, MatchKind::DirectoryOnly));
    assert!(is_eligible(&f, false, MatchKind::Any));
    assert!(is_eligible(&d, true, MatchKind::Any));
}

#[test]
fn entering_needs_an_open_directory() {
    let f = file_entry("a.txt", "text-x-generic");
    let d = dir_entry("sub");
    assert!(!can_enter(&f, true));
    assert!(can_enter(&d, true));
    assert!(!can_enter(&d, false));
}

#[test]
fn filter_config_pattern_commit() {
    let mut cfg = FilterConfig::new(MatchKind::Any);
    assert!(!cfg.show_hidden);
    assert!(!cfg.preview_images);
    cfg.set_cache_pattern("draft");
    assert_eq!(cfg.pattern, "");
    cfg.set_pattern();
    assert_eq!(cfg.pattern, "draft");
    assert_eq!(cfg.pattern_cache, "draft");
}
