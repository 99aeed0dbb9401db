//! Rendering of Unix permission bits as an `rwxrwxrwx` string.
//!
//! The bit masks are the POSIX `S_I*` constants for the owner, group and
//! other classes; a mode word is turned into three triplets, derived once at
//! classification time.

use vstd::prelude::*;

verus! {

/// Owner read bit (`S_IRUSR`).
pub const MODE_READ_USER: u32 = 0o400;

/// Owner write bit (`S_IWUSR`).
pub const MODE_WRITE_USER: u32 = 0o200;

/// Owner execute bit (`S_IXUSR`).
pub const MODE_EXEC_USER: u32 = 0o100;

/// Group read bit (`S_IRGRP`).
pub const MODE_READ_GROUP: u32 = 0o040;

/// Group write bit (`S_IWGRP`).
pub const MODE_WRITE_GROUP: u32 = 0o020;

/// Group execute bit (`S_IXGRP`).
pub const MODE_EXEC_GROUP: u32 = 0o010;

/// Other read bit (`S_IROTH`).
pub const MODE_READ_OTHER: u32 = 0o004;

/// Other write bit (`S_IWOTH`).
pub const MODE_WRITE_OTHER: u32 = 0o002;

/// Other execute bit (`S_IXOTH`).
pub const MODE_EXEC_OTHER: u32 = 0o001;

/// The three characters showing one permission class of `mode`, as selected
/// by the `read`, `write` and `execute` masks.
pub open spec fn triplet_spec(mode: u32, read: u32, write: u32, execute: u32) -> Seq<char> {
    let r = mode & read != 0;
    let w = mode & write != 0;
    let x = mode & execute != 0;
    if r && w && x {
        "rwx"@
    } else if r && w {
        "rw-"@
    } else if r && x {
        "r-x"@
    } else if r {
        "r--"@
    } else if w && x {
        "-wx"@
    } else if w {
        "-w-"@
    } else if x {
        "--x"@
    } else {
        "---"@
    }
}

/// The nine-character `rwxrwxrwx` rendering of `mode`.
pub open spec fn permission_string(mode: u32) -> Seq<char> {
    triplet_spec(mode, MODE_READ_USER, MODE_WRITE_USER, MODE_EXEC_USER) + triplet_spec(
        mode,
        MODE_READ_GROUP,
        MODE_WRITE_GROUP,
        MODE_EXEC_GROUP,
    ) + triplet_spec(mode, MODE_READ_OTHER, MODE_WRITE_OTHER, MODE_EXEC_OTHER)
}

/// One permission class of `mode` as a three-character string.
pub fn triplet(mode: u32, read: u32, write: u32, execute: u32) -> (r: String)
    ensures
        r@ == triplet_spec(mode, read, write, execute),
{
    let rb = mode & read != 0;
    let wb = mode & write != 0;
    let xb = mode & execute != 0;
    if rb && wb && xb {
        String::from_str("rwx")
    } else if rb && wb {
        String::from_str("rw-")
    } else if rb && xb {
        String::from_str("r-x")
    } else if rb {
        String::from_str("r--")
    } else if wb && xb {
        String::from_str("-wx")
    } else if wb {
        String::from_str("-w-")
    } else if xb {
        String::from_str("--x")
    } else {
        String::from_str("---")
    }
}

/// The full `rwxrwxrwx` rendering of `mode`, owner class first.
pub fn parse_permissions(mode: u32) -> (r: String)
    ensures
        r@ == permission_string(mode),
{
    let mut out = triplet(mode, MODE_READ_USER, MODE_WRITE_USER, MODE_EXEC_USER);
    let group = triplet(mode, MODE_READ_GROUP, MODE_WRITE_GROUP, MODE_EXEC_GROUP);
    let other = triplet(mode, MODE_READ_OTHER, MODE_WRITE_OTHER, MODE_EXEC_OTHER);
    out.append(group.as_str());
    out.append(other.as_str());
    out
}

} // verus!
