use filechooser::dir_unit::{DirUnit, VISIBLE_CAP};
use filechooser::entry::{FsInfo, RawEntry, RawMeta};
use filechooser::paths::ResolvedPath;
use filechooser::scanner::{DirScanner, ScanError, StepResult, SCAN_SYNC_THRESHOLD};

fn here() -> ResolvedPath {
    ResolvedPath::resolved("/d".to_string(), "/d".to_string())
}

fn plain_file(name: &str) -> FsInfo {
    FsInfo::File {
        path: format!("/d/{}", name),
        canon: Some(format!("/d/{}", name)),
        icon: "text-plain".to_string(),
        permission: "rw-r--r--".to_string(),
        name: name.to_string(),
        symlink: None,
        mimeinfo: vec!["text/plain".to_string()],
    }
}

fn raw_named(name: &str) -> RawEntry {
    RawEntry {
        path: format!("/d/{}", name),
        canon: Some(format!("/d/{}", name)),
        name: Some(name.to_string()),
        meta: Some(RawMeta { mode: 0o644, is_dir: false, is_symlink: false }),
        link: None,
    }
}

fn names_of(entries: &[FsInfo]) -> Vec<String> {
    entries.iter().map(|e| e.name().to_string()).collect()
}

#[test]
fn arrival_order_sorts_byte_wise() {
    // Entries arriving as b.txt, a.txt, Z.txt show as Z.txt, a.txt, b.txt:
    // byte order, uppercase before lowercase.
    let mut unit = DirUnit::enter(here());
    unit.append_infos(vec![
        plain_file("b.txt"),
        plain_file("a.txt"),
        plain_file("Z.txt"),
    ]);
    let visible = unit.visible_entries(true);
    assert_eq!(names_of(&visible), vec!["Z.txt", "a.txt", "b.txt"]);
}

#[test]
fn append_keeps_previous_entries_in_order() {
    let mut unit = DirUnit::enter(here());
    unit.append_infos(vec![plain_file("m"), plain_file("c")]);
    unit.append_infos(vec![plain_file("x"), plain_file("a")]);
    let visible = unit.visible_entries(true);
    assert_eq!(names_of(&visible), vec!["a", "c", "m", "x"]);
}

#[test]
fn hidden_entries_filtered_until_shown() {
    let mut unit = DirUnit::enter(here());
    unit.append_infos(vec![
        plain_file(".hidden"),
        plain_file("seen"),
        plain_file(".also"),
    ]);
    assert_eq!(names_of(&unit.visible_entries(false)), vec!["seen"]);
    // Showing hidden entries reveals them in their sorted places, without
    // moving the already-visible one.
    assert_eq!(
        names_of(&unit.visible_entries(true)),
        vec![".also", ".hidden", "seen"]
    );
}

#[test]
fn visible_list_is_capped() {
    let mut unit = DirUnit::enter(here());
    let batch: Vec<FsInfo> = (0..600).map(|i| plain_file(&format!("f{:04}", i))).collect();
    unit.append_infos(batch);
    assert_eq!(unit.fs_infos().len(), 600);
    assert_eq!(unit.visible_entries(true).len(), VISIBLE_CAP);
    assert_eq!(unit.filtered_entries(true).len(), 600);
}

#[test]
fn find_unit_matches_by_canonical_path() {
    let mut unit = DirUnit::enter(here());
    unit.append_infos(vec![plain_file("a.txt"), plain_file("b.txt")]);
    let target = ResolvedPath::resolved("b-alias".to_string(), "/d/b.txt".to_string());
    let hit = unit.find_unit(&target).expect("entry should be found");
    assert_eq!(hit.name(), "b.txt");
    let miss = ResolvedPath::resolved("/d/c.txt".to_string(), "/d/c.txt".to_string());
    assert!(unit.find_unit(&miss).is_none());
    let unresolved = ResolvedPath::unresolved("/d/a.txt".to_string());
    assert!(unit.find_unit(&unresolved).is_none());
}

#[test]
fn small_listing_scans_to_completion_before_visible() {
    let db = xdg_mime::SharedMimeInfo::new();
    let listing = vec![raw_named("one"), raw_named("two"), raw_named("three")];
    let s = DirScanner::start(here(), Some(listing), &db).unwrap();
    // Below the threshold the scan finishes before anything is observable,
    // and the collection holds one entry per enumerable raw entry.
    assert!(s.unit.scan_complete());
    assert_eq!(s.unit.fs_infos().len(), 3);
    assert_eq!(
        names_of(&s.unit.visible_entries(true)),
        vec!["one", "three", "two"]
    );
}

#[test]
fn failing_entries_are_skipped_not_fatal() {
    let db = xdg_mime::SharedMimeInfo::new();
    let bad = RawEntry {
        path: "/d/bad".to_string(),
        canon: None,
        name: None,
        meta: None,
        link: None,
    };
    let s = DirScanner::start(here(), Some(vec![raw_named("ok"), bad]), &db).unwrap();
    assert!(s.unit.scan_complete());
    assert_eq!(names_of(&s.unit.fs_infos()), vec!["ok"]);
}

#[test]
fn unenumerable_target_refuses_to_start() {
    let db = xdg_mime::SharedMimeInfo::new();
    let r = DirScanner::start(here(), None, &db);
    assert!(matches!(r, Err(ScanError::NotADirectory)));
}

#[test]
fn large_listing_steps_incrementally_sorted_and_growing() {
    let db = xdg_mime::SharedMimeInfo::new();
    let listing: Vec<RawEntry> = (0..SCAN_SYNC_THRESHOLD + 5)
        .map(|i| raw_named(&format!("f{:05}", (i * 7919) % 100000)))
        .collect();
    let total = listing.len();
    let mut s = DirScanner::start(here(), Some(listing), &db).unwrap();
    assert!(!s.unit.scan_complete());
    assert_eq!(s.unit.fs_infos().len(), 0);
    let mut last_len = 0;
    loop {
        match s.step(&db) {
            StepResult::Produced(e) => {
                // Every intermediate snapshot is sorted and never shrinks.
                let now = s.unit.fs_infos().len();
                assert!(now >= last_len);
                assert!(!s.unit.scan_complete());
                last_len = now;
                assert!(!e.name().is_empty());
                if now % 250 == 0 {
                    let names = names_of(s.unit.fs_infos());
                    for w in names.windows(2) {
                        assert!(w[0].as_bytes() <= w[1].as_bytes());
                    }
                }
            }
            StepResult::Exhausted => break,
        }
    }
    assert!(s.unit.scan_complete());
    assert_eq!(s.unit.fs_infos().len(), total);
    let names = names_of(s.unit.fs_infos());
    for w in names.windows(2) {
        assert!(w[0].as_bytes() <= w[1].as_bytes());
    }
}
