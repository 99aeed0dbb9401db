use filechooser::portal_option::{
    clone_filter, Choice, FileChosen, FileFilter, FilePath, FilePathError, FilterType,
};

#[test]
fn filter_type_kinds() {
    assert!(FilterType::MimeType.is_mimetype());
    assert!(!FilterType::MimeType.is_pattern());
    assert!(FilterType::GlobPattern.is_pattern());
    assert!(!FilterType::GlobPattern.is_mimetype());
}

#[test]
fn filter_builder_and_accessors() {
    let f = FileFilter::new("Images").mimetype("image/png").glob("*.jpg").mimetype("image/gif");
    assert_eq!(f.title(), "Images");
    assert_eq!(f.label(), "Images");
    assert_eq!(f.get_filters().len(), 3);
    assert_eq!(f.filters().len(), 3);
    assert_eq!(f.mimetype_filters(), vec!["image/png", "image/gif"]);
    assert_eq!(f.pattern_filters(), vec!["*.jpg"]);
}

#[test]
fn filter_default_is_catch_all() {
    let f = FileFilter::default();
    assert_eq!(f.title(), "All files: (*)");
    assert!(f.get_filters().is_empty());
}

#[test]
fn filter_display_string() {
    let f = FileFilter::new("Images").mimetype("image/png").glob("*.jpg");
    assert_eq!(f.display_string(), "Images : image/png *.jpg");
    assert_eq!(FileFilter::new("Empty").display_string(), "Empty :");
}

#[test]
fn filter_clone_matches() {
    let f = FileFilter::new("Docs").mimetype("application/pdf");
    let c = clone_filter(&f);
    assert_eq!(c.title(), "Docs");
    assert_eq!(c.mimetype_filters(), vec!["application/pdf"]);
}

#[test]
fn choice_builders_and_accessors() {
    let c = Choice::new("color", "Colour", "red").insert("red", "Red").insert("blue", "Blue");
    assert_eq!(c.id(), "color");
    assert_eq!(c.label(), "Colour");
    assert_eq!(c.initial_selection(), "red");
    assert_eq!(c.pairs(), vec![("red", "Red"), ("blue", "Blue")]);
}

#[test]
fn choice_boolean_initial_states() {
    assert_eq!(Choice::boolean("x", "X", true).initial_selection(), "true");
    assert_eq!(Choice::boolean("x", "X", false).initial_selection(), "false");
}

#[test]
fn file_path_parses_well_framed_bytes() {
    let f = FilePath::from_bytes_with_nul(b"/tmp/file\0".to_vec()).unwrap();
    assert_eq!(f.as_bytes().as_slice(), b"/tmp/file");
    assert_eq!(f.to_bytes_with_nul(), b"/tmp/file\0".to_vec());
}

#[test]
fn file_path_rejects_missing_terminator() {
    assert_eq!(
        FilePath::from_bytes_with_nul(b"/tmp/file".to_vec()).unwrap_err(),
        FilePathError::NotNulTerminated
    );
    assert_eq!(
        FilePath::from_bytes_with_nul(Vec::new()).unwrap_err(),
        FilePathError::NotNulTerminated
    );
}

#[test]
fn file_path_rejects_interior_nul() {
    assert_eq!(
        FilePath::from_bytes_with_nul(b"/tmp\0file\0".to_vec()).unwrap_err(),
        FilePathError::InteriorNul
    );
    assert_eq!(
        FilePath::from_bytes_with_nul(b"\0x".to_vec()).unwrap_err(),
        FilePathError::InteriorNul
    );
}

#[test]
fn chosen_default_is_plain_open() {
    let c = FileChosen::default();
    assert!(c.is_filechooser());
    assert!(!c.is_savefile());
    assert!(!c.is_multi_filechooser());
    assert!(!c.is_directory());
    assert!(c.is_modal());
    assert!(c.filters().is_empty());
    assert!(c.choices().is_empty());
    assert!(c.current_filter().is_none());
    assert_eq!(c.handle_token(), "");
    assert_eq!(c.accept_label(), "");
}

#[test]
fn chosen_open_file_accessors() {
    let c = FileChosen::OpenFile {
        handle_token: "tok".to_string(),
        accept_label: "Pick".to_string(),
        modal: false,
        multiple: true,
        directory: false,
        filters: vec![FileFilter::new("Any")],
        current_filter: Some(FileFilter::new("Any")),
        choices: vec![Choice::boolean("h", "Hidden", false)],
        current_folder: None,
    };
    assert!(c.is_filechooser());
    assert!(c.is_multi_filechooser());
    assert!(!c.is_directory());
    assert!(!c.is_modal());
    assert_eq!(c.handle_token(), "tok");
    assert_eq!(c.accept_label(), "Pick");
    assert_eq!(c.filters().len(), 1);
    assert_eq!(c.choices().len(), 1);
    assert_eq!(c.current_filter().unwrap().title(), "Any");
}

#[test]
fn chosen_save_file_accessors() {
    let folder = FilePath::from_bytes_with_nul(b"/home\0".to_vec()).unwrap();
    let file = FilePath::from_bytes_with_nul(b"/home/out.txt\0".to_vec()).unwrap();
    let c = FileChosen::SaveFile {
        handle_token: "t2".to_string(),
        accept_label: "Save".to_string(),
        modal: true,
        filters: Vec::new(),
        current_filter: None,
        choices: Vec::new(),
        current_folder: folder,
        current_file: file,
    };
    assert!(c.is_savefile());
    assert!(!c.is_filechooser());
    assert!(!c.is_multi_filechooser());
    assert!(!c.is_directory());
    assert!(c.is_modal());
}
