use filechooser::entry::{classify_core, ClassifyError, FsInfo, LinkInfo, RawEntry, RawMeta};
use filechooser::mime_db::classify_entry;

fn raw_file(name: &str) -> RawEntry {
    RawEntry {
        path: format!("/d/{}", name),
        canon: Some(format!("/d/{}", name)),
        name: Some(name.to_string()),
        meta: Some(RawMeta { mode: 0o644, is_dir: false, is_symlink: false }),
        link: None,
    }
}

#[test]
fn classify_plain_file() {
    let raw = raw_file("notes.txt");
    let e = classify_core(&raw, vec!["text/plain".to_string()], Some("text-x-generic".to_string()))
        .unwrap();
    assert!(e.is_file());
    assert!(!e.is_dir());
    assert_eq!(e.name(), "notes.txt");
    assert_eq!(e.path(), "/d/notes.txt");
    assert_eq!(e.permission(), "rw-r--r--");
    assert_eq!(e.icon(), "text-x-generic");
    assert!(!e.is_symlink());
    assert!(!e.is_hidden());
}

#[test]
fn classify_plain_directory() {
    let raw = RawEntry {
        path: "/d/sub".to_string(),
        canon: Some("/d/sub".to_string()),
        name: Some("sub".to_string()),
        meta: Some(RawMeta { mode: 0o755, is_dir: true, is_symlink: false }),
        link: None,
    };
    let e = classify_core(&raw, Vec::new(), None).unwrap();
    assert!(e.is_dir());
    assert_eq!(e.icon(), "inode-directory");
    assert_eq!(e.permission(), "rwxr-xr-x");
}

#[test]
fn classify_icon_falls_back_to_text_plain() {
    let raw = raw_file("mystery.zzz");
    let e = classify_core(&raw, vec!["application/octet-stream".to_string()], None).unwrap();
    assert_eq!(e.icon(), "text-plain");
}

#[test]
fn classify_missing_name_is_invalid_name() {
    let raw = RawEntry {
        path: "/d/???".to_string(),
        canon: None,
        name: None,
        meta: Some(RawMeta { mode: 0o644, is_dir: false, is_symlink: false }),
        link: None,
    };
    assert_eq!(
        classify_core(&raw, Vec::new(), None).unwrap_err(),
        ClassifyError::InvalidName
    );
}

#[test]
fn classify_missing_metadata_is_metadata_unavailable() {
    let raw = RawEntry {
        path: "/d/raced".to_string(),
        canon: None,
        name: Some("raced".to_string()),
        meta: None,
        link: None,
    };
    assert_eq!(
        classify_core(&raw, Vec::new(), None).unwrap_err(),
        ClassifyError::MetadataUnavailable
    );
}

#[test]
fn symlink_to_directory_is_directory_with_target() {
    let raw = RawEntry {
        path: "/d/link".to_string(),
        canon: Some("/real/dir".to_string()),
        name: Some("link".to_string()),
        meta: Some(RawMeta { mode: 0o777, is_dir: false, is_symlink: true }),
        link: Some(LinkInfo { target: "/real/dir".to_string(), target_is_dir: true }),
    };
    let e = classify_core(&raw, Vec::new(), None).unwrap();
    assert!(e.is_dir());
    assert!(e.is_symlink());
}

#[test]
fn symlink_to_file_is_file_with_target() {
    let raw = RawEntry {
        path: "/d/link2".to_string(),
        canon: Some("/real/file".to_string()),
        name: Some("link2".to_string()),
        meta: Some(RawMeta { mode: 0o777, is_dir: false, is_symlink: true }),
        link: Some(LinkInfo { target: "/real/file".to_string(), target_is_dir: false }),
    };
    let e = classify_core(&raw, vec!["text/plain".to_string()], None).unwrap();
    assert!(e.is_file());
    assert!(e.is_symlink());
}

#[test]
fn dangling_symlink_still_appears_with_own_kind() {
    let raw = RawEntry {
        path: "/d/dangling".to_string(),
        canon: None,
        name: Some("dangling".to_string()),
        meta: Some(RawMeta { mode: 0o777, is_dir: false, is_symlink: true }),
        link: None,
    };
    let e = classify_core(&raw, Vec::new(), None).unwrap();
    assert!(e.is_file());
    assert!(!e.is_symlink());
    assert_eq!(e.name(), "dangling");
}

#[test]
fn hidden_entry_detected_by_leading_dot() {
    let e = classify_core(&raw_file(".config"), Vec::new(), None).unwrap();
    assert!(e.is_hidden());
}

#[test]
fn svg_flag_from_mime_candidates() {
    let e = classify_core(
        &raw_file("logo.svg"),
        vec!["image/svg+xml".to_string()],
        Some("image-x-generic".to_string()),
    )
    .unwrap();
    assert!(e.is_svg());
    let plain = classify_core(&raw_file("a.txt"), vec!["text/plain".to_string()], None).unwrap();
    assert!(!plain.is_svg());
}

#[test]
fn image_flag_from_generic_icon() {
    let e = classify_core(
        &raw_file("photo.png"),
        vec!["image/png".to_string()],
        Some("image-x-generic".to_string()),
    )
    .unwrap();
    assert!(e.is_image());
}

#[test]
fn text_icon_name_dashes_first_mime() {
    let e = classify_core(
        &raw_file("notes.rst"),
        vec!["text/x-rst".to_string()],
        Some("text-x-generic".to_string()),
    )
    .unwrap();
    assert_eq!(e.text_icon_name().as_deref(), Some("text-x-rst"));
    let other = classify_core(
        &raw_file("photo.png"),
        vec!["image/png".to_string()],
        Some("image-x-generic".to_string()),
    )
    .unwrap();
    assert_eq!(other.text_icon_name(), None);
}

#[test]
fn readable_depends_on_open_attempt_only_for_dirs() {
    let f = classify_core(&raw_file("a.txt"), Vec::new(), None).unwrap();
    assert!(f.is_readable(false));
    let raw = RawEntry {
        path: "/d/locked".to_string(),
        canon: None,
        name: Some("locked".to_string()),
        meta: Some(RawMeta { mode: 0o000, is_dir: true, is_symlink: false }),
        link: None,
    };
    let d = classify_core(&raw, Vec::new(), None).unwrap();
    assert!(!d.is_readable(false));
    assert!(d.is_readable(true));
}

#[test]
fn classify_entry_pins_core_and_nonempty_mimes() {
    let db = xdg_mime::SharedMimeInfo::new();
    let e = classify_entry(&db, &raw_file("report.txt")).unwrap();
    assert!(e.is_file());
    assert_eq!(e.name(), "report.txt");
    assert_eq!(e.permission(), "rw-r--r--");
    // The MIME service never answers with an empty candidate list, so a file
    // always carries at least one candidate.
    match e {
        FsInfo::File { mimeinfo, .. } => assert!(!mimeinfo.is_empty()),
        FsInfo::Dir { .. } => panic!("classified a file as a directory"),
    }
    let err = classify_entry(
        &db,
        &RawEntry {
            path: "/d/x".to_string(),
            canon: None,
            name: None,
            meta: None,
            link: None,
        },
    )
    .unwrap_err();
    assert_eq!(err, ClassifyError::InvalidName);
}
