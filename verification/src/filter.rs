//! The user's view settings and selection eligibility.
//!
//! A [`FilterConfig`] holds what the user chose about presentation: whether
//! hidden entries show, whether raster images render inline, which kind of
//! entry the request selects, and the name-search pattern with its edit
//! buffer. Changing any of it never touches the scanned collection —
//! visibility is recomputed by filtering what is already there — and
//! flipping `show_hidden` on merely reveals the dot-entries in their sorted
//! places, as the lemmas at the bottom state.

use vstd::prelude::*;
use crate::dir_unit::{entries_sorted, entry_leq, visible_pred};
use crate::entry::{FsInfo, FsInfoV};

verus! {

/// Which kind of entry the request selects.
#[derive(Debug, Clone, Copy, PartialEq, Eq, Structural)]
pub enum MatchKind {
    /// Only files may be picked.
    FileOnly,
    /// Only directories may be picked.
    DirectoryOnly,
    /// Anything may be picked.
    Any,
}

/// The user-chosen view settings.
#[derive(Debug, Clone)]
pub struct FilterConfig {
    /// Whether entries whose name starts with a dot are shown.
    pub show_hidden: bool,
    /// Whether raster images render inline from their own file.
    pub preview_images: bool,
    /// Which kind of entry may be selected.
    pub match_kind: MatchKind,
    /// The committed name-search pattern.
    pub pattern: String,
    /// The pattern as typed, not yet committed.
    pub pattern_cache: String,
}

impl FilterConfig {
    /// Fresh settings: hidden entries off, previews off, the given target
    /// kind, empty patterns.
    pub fn new(match_kind: MatchKind) -> (r: Self)
        ensures
            !r.show_hidden,
            !r.preview_images,
            r.match_kind == match_kind,
            r.pattern@.len() == 0,
            r.pattern_cache@.len() == 0,
    {
        FilterConfig {
            show_hidden: false,
            preview_images: false,
            match_kind,
            pattern: String::new(),
            pattern_cache: String::new(),
        }
    }

    /// Buffers a typed pattern without committing it.
    pub fn set_cache_pattern(&mut self, pattern: &str)
        ensures
            final (self).pattern_cache@ == pattern@,
            final (self).pattern == old(self).pattern,
            final (self).show_hidden == old(self).show_hidden,
            final (self).preview_images == old(self).preview_images,
            final (self).match_kind == old(self).match_kind,
    {
        self.pattern_cache = pattern.to_owned();
    }

    /// Commits the buffered pattern.
    pub fn set_pattern(&mut self)
        ensures
            final (self).pattern@ == old(self).pattern_cache@,
            final (self).pattern_cache == old(self).pattern_cache,
            final (self).show_hidden == old(self).show_hidden,
            final (self).preview_images == old(self).preview_images,
            final (self).match_kind == old(self).match_kind,
    {
        self.pattern = self.pattern_cache.clone();
    }
}

/// Whether an entry may be toggled or activated: it is accessible —
/// opening it succeeded, for directories — and of the selected kind. A pure
/// function of the entry and the settings, checked by the presentation
/// layer before it invokes selection.
pub open spec fn eligible_spec(v: FsInfoV, dir_open_ok: bool, kind: MatchKind) -> bool {
    &&& (!v.is_dir || dir_open_ok)
    &&& match kind {
        MatchKind::FileOnly => !v.is_dir,
        MatchKind::DirectoryOnly => v.is_dir,
        MatchKind::Any => true,
    }
}

/// Decides eligibility, as [`eligible_spec`] states. `dir_open_ok` is the
/// outcome of the caller's attempt to open the entry as a directory;
/// readability is defined by that attempt, and ignored for files.
pub fn is_eligible(e: &FsInfo, dir_open_ok: bool, kind: MatchKind) -> (r: bool)
    ensures
        r == eligible_spec(e@, dir_open_ok, kind),
{
    let readable = e.is_readable(dir_open_ok);
    let kind_ok = match kind {
        MatchKind::FileOnly => e.is_file(),
        MatchKind::DirectoryOnly => e.is_dir(),
        MatchKind::Any => true,
    };
    readable && kind_ok
}

/// Whether an entry can be entered: a directory that opened.
pub fn can_enter(e: &FsInfo, dir_open_ok: bool) -> (r: bool)
    ensures
        r == (e@.is_dir && dir_open_ok),
{
    e.is_dir() && e.is_readable(dir_open_ok)
}

/// Every element of a filtered list comes from the list it was filtered
/// from.
proof fn lemma_filter_elements(s: Seq<FsInfoV>, p: spec_fn(FsInfoV) -> bool)
    ensures
        forall|i: int|
            0 <= i < s.filter(p).len() ==> exists|k: int|
                0 <= k < s.len() && s[k] == #[trigger] s.filter(p)[i],
    decreases s.len(),
{
    reveal(Seq::filter);
    if s.len() > 0 {
        lemma_filter_elements(s.drop_last(), p);
        assert forall|i: int| 0 <= i < s.filter(p).len() implies exists|k: int|
            0 <= k < s.len() && s[k] == #[trigger] s.filter(p)[i] by {
            let f = s.drop_last().filter(p);
            if i < f.len() {
                let k = choose|k: int| 0 <= k < s.drop_last().len() && s.drop_last()[k] == f[i];
                assert(s[k] == s.filter(p)[i]);
            } else {
                assert(s.filter(p)[i] == s.last());
                assert(s[s.len() - 1] == s.filter(p)[i]);
            }
        };
    }
}

/// Filtering a name-sorted list keeps it name-sorted: hiding or revealing
/// entries never reorders the ones that show.
pub proof fn lemma_filter_preserves_sorted(s: Seq<FsInfoV>, p: spec_fn(FsInfoV) -> bool)
    requires
        entries_sorted(s),
    ensures
        entries_sorted(s.filter(p)),
    decreases s.len(),
{
    reveal(Seq::filter);
    if s.len() > 0 {
        let d = s.drop_last();
        assert(entries_sorted(d));
        lemma_filter_preserves_sorted(d, p);
        lemma_filter_elements(d, p);
        if p(s.last()) {
            let f = d.filter(p).push(s.last());
            assert forall|i: int, j: int| 0 <= i < j < f.len() implies #[trigger] entry_leq(
                f[i],
                f[j],
            ) by {
                if j < f.len() - 1 {
                    assert(entry_leq(d.filter(p)[i], d.filter(p)[j]));
                } else {
                    let k = choose|k: int| 0 <= k < d.len() && d[k] == d.filter(p)[i];
                    assert(entry_leq(s[k], s[s.len() - 1]));
                }
            };
        }
    }
}

/// Showing hidden entries reveals everything, in place: the filter that
/// hides nothing returns the collection as it stands. Together with
/// [`lemma_filter_preserves_sorted`], flipping `show_hidden` from false to
/// true only interleaves the dot-entries into the already-visible ones,
/// whose relative order it cannot change — and it reads the existing
/// collection, never rescanning, as the scan state is not even an input
/// here.
pub proof fn lemma_show_hidden_only_reveals(s: Seq<FsInfoV>)
    ensures
        s.filter(visible_pred(true)) == s,
        s.filter(visible_pred(false)) == s.filter(visible_pred(true)).filter(visible_pred(false)),
    decreases s.len(),
{
    reveal(Seq::filter);
    if s.len() > 0 {
        lemma_show_hidden_only_reveals(s.drop_last());
        assert(s.filter(visible_pred(true)) =~= s);
    } else {
        assert(s.filter(visible_pred(true)) =~= s);
    }
}

} // verus!
