//! Path values and the orderings and identities defined on them.
//!
//! A path travels through the engine as a plain string. Canonicalization
//! (symlink resolution) is a filesystem service performed by the caller; its
//! outcome is recorded in a [`ResolvedPath`], and path identity is decided
//! here from that record alone: two paths are the same exactly when both
//! resolved and their canonical forms agree. An unresolvable path is never
//! the same as anything, not even itself.
//!
//! Entry names are ordered byte-wise over their UTF-8 encoding, case
//! significant; [`lex_leq`] is that order and [`name_leq`] decides it.

use vstd::prelude::*;
use vstd::string::*;
use vstd::utf8::encode_utf8;

verus! {

/// The UTF-8 encoding of a string's characters: the byte sequence that
/// name ordering compares.
pub open spec fn str_bytes(s: Seq<char>) -> Seq<u8> {
    encode_utf8(s)
}

/// Byte-wise lexicographic "less or equal" on byte sequences.
pub open spec fn lex_leq(a: Seq<u8>, b: Seq<u8>) -> bool
    decreases a.len(),
{
    if a.len() == 0 {
        true
    } else if b.len() == 0 {
        false
    } else if a[0] < b[0] {
        true
    } else if a[0] > b[0] {
        false
    } else {
        lex_leq(a.skip(1), b.skip(1))
    }
}

/// The lexicographic order relates every pair of byte sequences.
pub proof fn lemma_lex_leq_total(a: Seq<u8>, b: Seq<u8>)
    ensures
        lex_leq(a, b) || lex_leq(b, a),
    decreases a.len(),
{
    if a.len() != 0 && b.len() != 0 && a[0] == b[0] {
        lemma_lex_leq_total(a.skip(1), b.skip(1));
    }
}

/// The lexicographic order is transitive.
pub proof fn lemma_lex_leq_trans(a: Seq<u8>, b: Seq<u8>, c: Seq<u8>)
    requires
        lex_leq(a, b),
        lex_leq(b, c),
    ensures
        lex_leq(a, c),
    decreases a.len(),
{
    if a.len() != 0 && b.len() != 0 && c.len() != 0 && a[0] == b[0] && b[0] == c[0] {
        lemma_lex_leq_trans(a.skip(1), b.skip(1), c.skip(1));
    }
}

/// Two byte sequences below one another are equal.
pub proof fn lemma_lex_leq_antisym(a: Seq<u8>, b: Seq<u8>)
    requires
        lex_leq(a, b),
        lex_leq(b, a),
    ensures
        a == b,
    decreases a.len(),
{
    if a.len() != 0 && b.len() != 0 && a[0] == b[0] {
        lemma_lex_leq_antisym(a.skip(1), b.skip(1));
        assert(a =~= seq![a[0]] + a.skip(1));
        assert(b =~= seq![b[0]] + b.skip(1));
    }
}

/// Strings with the same UTF-8 encoding are the same string: equal name
/// bytes mean equal names.
pub proof fn lemma_str_bytes_injective(a: Seq<char>, b: Seq<char>)
    requires
        str_bytes(a) == str_bytes(b),
    ensures
        a == b,
{
    vstd::utf8::encode_utf8_decode_utf8(a);
    vstd::utf8::encode_utf8_decode_utf8(b);
}

/// Sharing a prefix, two byte sequences compare as their remainders do.
proof fn lemma_lex_leq_skip_common(a: Seq<u8>, b: Seq<u8>, i: int)
    requires
        0 <= i <= a.len(),
        i <= b.len(),
        forall|j: int| 0 <= j < i ==> a[j] == b[j],
    ensures
        lex_leq(a, b) == lex_leq(a.skip(i), b.skip(i)),
    decreases i,
{
    if i > 0 {
        assert(a.len() != 0 && b.len() != 0 && a[0] == b[0]);
        assert(forall|j: int| 0 <= j < i - 1 ==> a.skip(1)[j] == b.skip(1)[j]);
        lemma_lex_leq_skip_common(a.skip(1), b.skip(1), i - 1);
        assert(a.skip(1).skip(i - 1) =~= a.skip(i));
        assert(b.skip(1).skip(i - 1) =~= b.skip(i));
        assert(lex_leq(a, b) == lex_leq(a.skip(1), b.skip(1))) by {
            reveal_with_fuel(lex_leq, 2);
        };
    } else {
        assert(a.skip(0) =~= a);
        assert(b.skip(0) =~= b);
    }
}

/// Whether `a` comes no later than `b` in byte-wise name order.
pub fn name_leq(a: &str, b: &str) -> (r: bool)
    ensures
        r == lex_leq(str_bytes(a@), str_bytes(b@)),
{
    let ab = a.as_bytes();
    let bb = b.as_bytes();
    let alen = ab.len();
    let blen = bb.len();
    let mut i: usize = 0;
    loop
        invariant
            i <= alen,
            i <= blen,
            alen == ab@.len(),
            blen == bb@.len(),
            ab@ == str_bytes(a@),
            bb@ == str_bytes(b@),
            forall|j: int| 0 <= j < i ==> ab@[j] == bb@[j],
        decreases alen - i,
    {
        proof {
            lemma_lex_leq_skip_common(ab@, bb@, i as int);
        }
        if i == alen {
            assert(ab@.skip(i as int).len() == 0);
            return true;
        }
        if i == blen {
            assert(bb@.skip(i as int).len() == 0 && ab@.skip(i as int).len() != 0);
            return false;
        }
        let x = ab[i];
        let y = bb[i];
        assert(ab@.skip(i as int)[0] == x && bb@.skip(i as int)[0] == y);
        if x < y {
            return true;
        }
        if x > y {
            return false;
        }
        i = i + 1;
    }
}

/// A path together with the outcome of resolving it to canonical form.
///
/// `canon` is `Some` of the symlink-free absolute form when resolution
/// succeeded, and `None` when it failed (dangling symlink, permission
/// denied, or the path vanished mid-flight).
#[derive(Debug, Clone)]
pub struct ResolvedPath {
    /// The path as given.
    pub raw: String,
    /// Its canonical form, when resolvable.
    pub canon: Option<String>,
}

/// What path identity means: both sides resolved, to the same canonical form.
pub open spec fn same_path_spec(a: ResolvedPath, b: ResolvedPath) -> bool {
    match (a.canon, b.canon) {
        (Some(x), Some(y)) => x@ == y@,
        _ => false,
    }
}

impl ResolvedPath {
    /// A path whose resolution succeeded.
    pub open spec fn is_resolved(&self) -> bool {
        self.canon is Some
    }

    /// A resolved path, for callers that already hold the canonical form.
    pub fn resolved(raw: String, canon: String) -> (r: ResolvedPath)
        ensures
            r.raw == raw,
            r.canon == Some(canon),
    {
        ResolvedPath { raw, canon: Some(canon) }
    }

    /// A path that failed to resolve.
    pub fn unresolved(raw: String) -> (r: ResolvedPath)
        ensures
            r.raw == raw,
            r.canon is None,
    {
        ResolvedPath { raw, canon: None }
    }
}

/// A copy of a resolved path, equal to the one given.
pub fn clone_resolved(p: &ResolvedPath) -> (r: ResolvedPath)
    ensures
        r == *p,
{
    let canon = match &p.canon {
        Some(s) => Some(s.clone()),
        None => None,
    };
    let r = ResolvedPath { raw: p.raw.clone(), canon };
    proof {
        assert(r.canon == p.canon);
    }
    r
}

/// Whether two paths name the same filesystem object: true exactly when both
/// resolved and their canonical forms agree. Unresolvable paths compare
/// unequal to everything, their own raw text included.
pub fn is_samedir(a: &ResolvedPath, b: &ResolvedPath) -> (r: bool)
    ensures
        r == same_path_spec(*a, *b),
{
    match (&a.canon, &b.canon) {
        (Some(x), Some(y)) => *x == *y,
        _ => false,
    }
}

/// Path identity is reflexive exactly on resolvable paths: `p` is the same
/// path as itself when it resolves, and no path — itself included — equals
/// one that does not resolve, whatever its raw text.
pub proof fn lemma_same_path_identity(p: ResolvedPath, q: ResolvedPath)
    ensures
        same_path_spec(p, p) == p.is_resolved(),
        !p.is_resolved() || !q.is_resolved() ==> !same_path_spec(p, q),
{
}

/// What follows the last `/` of `p` (all of `p` when it has none).
pub open spec fn after_last_slash(p: Seq<char>) -> Seq<char>
    decreases p.len(),
{
    if p.len() == 0 {
        p
    } else if p.last() == '/' {
        Seq::<char>::empty()
    } else {
        after_last_slash(p.drop_last()).push(p.last())
    }
}

/// The display name of a directory: its final path component, with `/`
/// standing in when that component is empty (the root, or a trailing slash).
pub open spec fn dir_name_spec(p: Seq<char>) -> Seq<char> {
    if after_last_slash(p).len() == 0 {
        "/"@
    } else {
        after_last_slash(p)
    }
}

/// The parent of a canonical path: the text before its last `/`, the root
/// `/` when that slash leads, and nothing for the root itself or for a
/// single bare component.
pub open spec fn parent_of_spec(p: Seq<char>) -> Option<Seq<char>> {
    let tail = after_last_slash(p);
    if tail.len() == p.len() {
        None
    } else {
        let k = p.len() - tail.len() - 1;
        if k == 0 {
            if p.len() == 1 {
                None
            } else {
                Some(seq!['/'])
            }
        } else {
            Some(p.take(k))
        }
    }
}

/// What follows the last slash is never longer than the path itself.
pub proof fn lemma_after_len_le(p: Seq<char>)
    ensures
        after_last_slash(p).len() <= p.len(),
    decreases p.len(),
{
    if p.len() != 0 && p.last() != '/' {
        lemma_after_len_le(p.drop_last());
    }
}

/// A path free of slashes keeps all of itself after the last slash.
proof fn lemma_after_no_slash(p: Seq<char>)
    requires
        forall|j: int| 0 <= j < p.len() ==> p[j] != '/',
    ensures
        after_last_slash(p) =~= p,
    decreases p.len(),
{
    if p.len() != 0 {
        lemma_after_no_slash(p.drop_last());
        assert(p.drop_last().push(p.last()) =~= p);
    }
}

/// With the last slash of `p` at `k`, what follows it is `p.skip(k + 1)`.
proof fn lemma_after_slash_at(p: Seq<char>, k: int)
    requires
        0 <= k < p.len(),
        p[k] == '/',
        forall|j: int| k < j < p.len() ==> p[j] != '/',
    ensures
        after_last_slash(p) =~= p.skip(k + 1),
    decreases p.len(),
{
    if k == p.len() - 1 {
        assert(p.skip(k + 1).len() == 0);
    } else {
        assert(p.last() != '/');
        lemma_after_slash_at(p.drop_last(), k);
        assert(p.drop_last().skip(k + 1).push(p.last()) =~= p.skip(k + 1));
    }
}

/// A parent is strictly shorter than its child.
pub proof fn lemma_parent_shorter(p: Seq<char>)
    ensures
        parent_of_spec(p) matches Some(q) ==> q.len() < p.len(),
{
    lemma_after_len_le(p);
}

/// The position of the last `/` of `path`, if it has one.
fn last_slash_index(path: &str) -> (r: Option<usize>)
    ensures
        r matches Some(k) ==> k < path@.len() && path@[k as int] == '/' && (forall|j: int|
            k < j < path@.len() ==> path@[j] != '/'),
        r is None ==> forall|j: int| 0 <= j < path@.len() ==> path@[j] != '/',
{
    let n = path.unicode_len();
    let mut i: usize = n;
    while i > 0
        invariant
            i <= n,
            n == path@.len(),
            forall|j: int| i <= j < n ==> path@[j] != '/',
        decreases i,
    {
        if path.get_char(i - 1) == '/' {
            return Some(i - 1);
        }
        i = i - 1;
    }
    None
}

/// The display name of a directory path: its final component, `/` for the
/// root.
pub fn get_dir_name(dir: &str) -> (r: String)
    ensures
        r@ == dir_name_spec(dir@),
{
    let n = dir.unicode_len();
    match last_slash_index(dir) {
        Some(k) => {
            proof {
                lemma_after_slash_at(dir@, k as int);
            }
            let tail = dir.substring_char(k + 1, n);
            assert(tail@ =~= dir@.skip(k as int + 1));
            if tail.unicode_len() == 0 {
                String::from_str("/")
            } else {
                tail.to_owned()
            }
        },
        None => {
            proof {
                lemma_after_no_slash(dir@);
            }
            if n == 0 {
                String::from_str("/")
            } else {
                dir.to_owned()
            }
        },
    }
}

/// The parent directory of `path`, as [`parent_of_spec`] defines it.
pub fn parent_of(path: &str) -> (r: Option<String>)
    ensures
        match r {
            Some(q) => parent_of_spec(path@) == Some(q@),
            None => parent_of_spec(path@) is None,
        },
{
    let n = path.unicode_len();
    match last_slash_index(path) {
        Some(k) => {
            proof {
                lemma_after_slash_at(path@, k as int);
                assert(after_last_slash(path@).len() == n - k - 1);
            }
            if k == 0 {
                if n == 1 {
                    None
                } else {
                    let root = String::from_str("/");
                    proof {
                        reveal_strlit("/");
                        assert(root@ =~= seq!['/']);
                    }
                    Some(root)
                }
            } else {
                let pre = path.substring_char(0, k);
                assert(pre@ =~= path@.take(k as int));
                Some(pre.to_owned())
            }
        },
        None => {
            proof {
                lemma_after_no_slash(path@);
            }
            None
        },
    }
}

/// The chain of directories leading to `p`, outermost first and `p` itself
/// last, each written as a full path.
pub open spec fn ancestors_of(p: Seq<char>) -> Seq<Seq<char>>
    decreases p.len(),
    via ancestors_of_decreases
{
    match parent_of_spec(p) {
        None => seq![p],
        Some(q) => ancestors_of(q).push(p),
    }
}

#[via_fn]
proof fn ancestors_of_decreases(p: Seq<char>) {
    lemma_parent_shorter(p);
}

/// The views of a list of strings.
pub open spec fn string_views(s: Seq<String>) -> Seq<Seq<char>> {
    s.map_values(|x: String| x@)
}

/// The breadcrumb trail of `path`: every ancestor directory from the
/// outermost down to `path` itself.
pub fn breadcrumbs(path: &str) -> (r: Vec<String>)
    ensures
        string_views(r@) == ancestors_of(path@),
{
    let mut acc: Vec<String> = Vec::new();
    let mut cur: String = path.to_owned();
    loop
        invariant
            ancestors_of(path@) =~= ancestors_of(cur@) + string_views(acc@).reverse(),
        ensures
            ancestors_of(path@) =~= ancestors_of(cur@) + string_views(acc@).reverse(),
            parent_of_spec(cur@) is None,
        decreases cur@.len(),
    {
        match parent_of(cur.as_str()) {
            None => {
                break ;
            },
            Some(q) => {
                proof {
                    lemma_parent_shorter(cur@);
                    assert(ancestors_of(cur@) == ancestors_of(q@).push(cur@));
                }
                let ghost old_acc = acc@;
                let ghost old_cur_s: String = cur;
                let ghost old_cur = cur@;
                acc.push(cur);
                cur = q;
                proof {
                    assert(string_views(old_acc.push(old_cur_s)) =~= string_views(old_acc).push(
                        old_cur,
                    ));
                    assert(string_views(old_acc).push(old_cur).reverse() =~= seq![old_cur]
                        + string_views(old_acc).reverse());
                    assert(ancestors_of(q@).push(old_cur) + string_views(old_acc).reverse()
                        =~= ancestors_of(q@) + (seq![old_cur] + string_views(old_acc).reverse()));
                }
            },
        }
    }
    assert(ancestors_of(cur@) =~= seq![cur@]);
    let mut out: Vec<String> = Vec::new();
    out.push(cur);
    while acc.len() > 0
        invariant
            string_views(out@) + string_views(acc@).reverse() =~= ancestors_of(path@),
        decreases acc.len(),
    {
        let ghost old_acc = acc@;
        let ghost old_out = out@;
        let x = acc.pop().unwrap();
        let ghost xv = x@;
        out.push(x);
        proof {
            assert(string_views(old_acc) =~= string_views(old_acc.drop_last()).push(xv));
            assert(string_views(old_acc.drop_last()).push(xv).reverse() =~= seq![xv]
                + string_views(old_acc.drop_last()).reverse());
            assert(string_views(old_out.push(x)) =~= string_views(old_out).push(xv));
            assert(string_views(old_out).push(xv) + string_views(old_acc.drop_last()).reverse()
                =~= string_views(old_out) + (seq![xv] + string_views(
                old_acc.drop_last(),
            ).reverse()));
        }
    }
    assert(string_views(acc@).reverse() =~= Seq::<Seq<char>>::empty());
    assert(string_views(out@) =~= string_views(out@) + string_views(acc@).reverse());
    out
}

} // verus!
