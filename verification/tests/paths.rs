use filechooser::paths::{
    breadcrumbs, get_dir_name, is_samedir, name_leq, parent_of, ResolvedPath,
};

#[test]
fn dir_name_of_nested_path() {
    assert_eq!(get_dir_name("/usr/lib"), "lib");
}

#[test]
fn dir_name_of_root() {
    assert_eq!(get_dir_name("/"), "/");
}

#[test]
fn dir_name_of_empty() {
    assert_eq!(get_dir_name(""), "/");
}

#[test]
fn dir_name_of_trailing_slash() {
    assert_eq!(get_dir_name("usr/"), "/");
}

#[test]
fn dir_name_without_slash() {
    assert_eq!(get_dir_name("plain"), "plain");
}

#[test]
fn parent_of_nested() {
    assert_eq!(parent_of("/usr/lib").as_deref(), Some("/usr"));
}

#[test]
fn parent_of_top_level() {
    assert_eq!(parent_of("/usr").as_deref(), Some("/"));
}

#[test]
fn parent_of_root_is_none() {
    assert_eq!(parent_of("/"), None);
}

#[test]
fn parent_of_bare_component_is_none() {
    assert_eq!(parent_of("plain"), None);
}

#[test]
fn breadcrumbs_from_root_down() {
    let trail = breadcrumbs("/usr/lib");
    let texts: Vec<&str> = trail.iter().map(|s| s.as_str()).collect();
    assert_eq!(texts, vec!["/", "/usr", "/usr/lib"]);
}

#[test]
fn breadcrumbs_of_root() {
    let trail = breadcrumbs("/");
    let texts: Vec<&str> = trail.iter().map(|s| s.as_str()).collect();
    assert_eq!(texts, vec!["/"]);
}

#[test]
fn name_order_is_byte_wise() {
    // Uppercase sorts before lowercase in byte order.
    assert!(name_leq("Z.txt", "a.txt"));
    assert!(!name_leq("a.txt", "Z.txt"));
    assert!(name_leq("a.txt", "b.txt"));
    assert!(name_leq("same", "same"));
    assert!(name_leq("ab", "abc"));
    assert!(!name_leq("abc", "ab"));
}

#[test]
fn same_path_on_resolved_equal() {
    let a = ResolvedPath::resolved("link".to_string(), "/real/target".to_string());
    let b = ResolvedPath::resolved("/real/target".to_string(), "/real/target".to_string());
    assert!(is_samedir(&a, &b));
}

#[test]
fn same_path_reflexive_when_resolved() {
    let p = ResolvedPath::resolved("/x".to_string(), "/x".to_string());
    assert!(is_samedir(&p, &p));
}

#[test]
fn same_path_false_for_unresolvable_even_if_raw_equal() {
    let a = ResolvedPath::unresolved("/gone".to_string());
    let b = ResolvedPath::unresolved("/gone".to_string());
    assert!(!is_samedir(&a, &b));
    assert!(!is_samedir(&a, &a));
}

#[test]
fn same_path_false_when_one_side_unresolvable() {
    let a = ResolvedPath::resolved("/x".to_string(), "/x".to_string());
    let b = ResolvedPath::unresolved("/x".to_string());
    assert!(!is_samedir(&a, &b));
    assert!(!is_samedir(&b, &a));
}

#[test]
fn same_path_false_for_different_canon() {
    let a = ResolvedPath::resolved("/x".to_string(), "/x".to_string());
    let b = ResolvedPath::resolved("/y".to_string(), "/y".to_string());
    assert!(!is_samedir(&a, &b));
}
