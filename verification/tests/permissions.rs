use filechooser::permissions::{
    parse_permissions, triplet, MODE_EXEC_USER, MODE_READ_USER, MODE_WRITE_USER,
};

#[test]
fn triplet_all_bits() {
    assert_eq!(
        triplet(0o700, MODE_READ_USER, MODE_WRITE_USER, MODE_EXEC_USER),
        "rwx"
    );
}

#[test]
fn triplet_no_bits() {
    assert_eq!(
        triplet(0o000, MODE_READ_USER, MODE_WRITE_USER, MODE_EXEC_USER),
        "---"
    );
}

#[test]
fn triplet_read_exec() {
    assert_eq!(
        triplet(0o500, MODE_READ_USER, MODE_WRITE_USER, MODE_EXEC_USER),
        "r-x"
    );
}

#[test]
fn triplet_write_only() {
    assert_eq!(
        triplet(0o200, MODE_READ_USER, MODE_WRITE_USER, MODE_EXEC_USER),
        "-w-"
    );
}

#[test]
fn parse_permissions_755() {
    assert_eq!(parse_permissions(0o755), "rwxr-xr-x");
}

#[test]
fn parse_permissions_644() {
    assert_eq!(parse_permissions(0o644), "rw-r--r--");
}

#[test]
fn parse_permissions_000() {
    assert_eq!(parse_permissions(0o000), "---------");
}

#[test]
fn parse_permissions_ignores_high_bits() {
    // A directory mode word: the file-type bits do not show in the triplets.
    assert_eq!(parse_permissions(0o040750), "rwxr-x---");
}
