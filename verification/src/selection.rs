//! Mode-aware selection tracking.
//!
//! The selection is a set of paths, compared by their text: it survives
//! navigation, since entries of any directory may sit in it. The detail
//! pointer (`active_detail`) names the entry whose preview is open and is
//! compared by canonical path. In single-select mode the set never holds
//! more than one path and agrees with the detail pointer whenever it is
//! non-empty; multi-select accumulates toggles idempotently.
//!
//! Eligibility — whether an entry may be toggled or activated at all — is a
//! pure function of the entry and the filter configuration that the caller
//! checks before invoking these operations; the manager does not re-check
//! it.

use vstd::prelude::*;
use crate::paths::{is_samedir, same_path_spec, string_views, ResolvedPath};

verus! {

/// Whether the widget keeps one current pick or accumulates many.
#[derive(Debug, Clone, Copy, PartialEq, Eq, Structural)]
pub enum SelectMode {
    SingleSelect,
    MultiSelect,
}

/// The selection state: the picked paths and the detail pointer.
pub struct SelectionManager {
    /// Single or accumulating selection.
    pub mode: SelectMode,
    /// The picked paths, by their raw text, each at most once.
    pub selected: Vec<String>,
    /// The entry whose preview is open, with its resolution.
    pub active_detail: Option<ResolvedPath>,
}

impl SelectionManager {
    /// The selection as a set of path texts.
    pub open spec fn selected_set(&self) -> Set<Seq<char>> {
        string_views(self.selected@).to_set()
    }

    /// No path sits in the selection twice.
    pub open spec fn no_dups(&self) -> bool {
        forall|i: int, j: int|
            0 <= i < j < self.selected@.len() ==> #[trigger] string_views(self.selected@)[i]
                != #[trigger] string_views(self.selected@)[j]
    }

    /// The standing invariant: no duplicates, and in single-select mode at
    /// most one pick, which the detail pointer names whenever there is one.
    pub open spec fn wf(&self) -> bool {
        &&& self.no_dups()
        &&& (self.mode is SingleSelect ==> self.selected@.len() <= 1 && (self.selected@.len() == 1
            ==> (self.active_detail matches Some(a) && a.raw@ == string_views(
            self.selected@,
        )[0])))
    }

    /// Whether `p` names the entry the detail pointer holds, by canonical
    /// path.
    pub open spec fn active_same(&self, p: ResolvedPath) -> bool {
        match self.active_detail {
            Some(a) => same_path_spec(a, p),
            None => false,
        }
    }

    /// An empty selection in the given mode.
    pub fn new(mode: SelectMode) -> (r: Self)
        ensures
            r.wf(),
            r.mode == mode,
            r.selected@.len() == 0,
            r.active_detail is None,
    {
        SelectionManager { mode, selected: Vec::new(), active_detail: None }
    }

    /// What toggling promises. Multi-select adds or removes the path from
    /// the set, idempotently, without touching the detail pointer.
    /// Single-select with `checked` replaces the whole selection — and the
    /// detail pointer, which the invariant ties to it — with this path;
    /// unchecking removes the path, leaving the pointer alone.
    pub open spec fn toggle_post(
        pre: Self,
        post: Self,
        path: ResolvedPath,
        checked: bool,
    ) -> bool {
        &&& post.mode == pre.mode
        &&& if pre.mode is MultiSelect {
            &&& post.active_detail == pre.active_detail
            &&& post.selected_set() == if checked {
                pre.selected_set().insert(path.raw@)
            } else {
                pre.selected_set().remove(path.raw@)
            }
        } else {
            if checked {
                &&& string_views(post.selected@) == seq![path.raw@]
                &&& post.active_detail == Some(path)
            } else {
                &&& post.selected_set() == pre.selected_set().remove(path.raw@)
                &&& post.active_detail == pre.active_detail
            }
        }
    }

    /// Toggles `path` in or out of the selection, as [`Self::toggle_post`]
    /// states.
    pub fn toggle(&mut self, path: ResolvedPath, checked: bool)
        requires
            old(self).wf(),
        ensures
            final (self).wf(),
            Self::toggle_post(*old(self), *final (self), path, checked),
    {
        let single = matches!(self.mode, SelectMode::SingleSelect);
        if checked && single {
            self.selected.clear();
            self.selected.push(path.raw.clone());
            proof {
                assert(string_views(self.selected@) =~= seq![path.raw@]);
            }
            self.active_detail = Some(path);
        } else if checked {
            let ghost pre = string_views(self.selected@);
            if !contains_path(&self.selected, &path.raw) {
                self.selected.push(path.raw.clone());
                proof {
                    assert(string_views(self.selected@) =~= pre.push(path.raw@));
                    lemma_views_push_to_set(pre, path.raw@);
                }
            } else {
                proof {
                    assert(pre.to_set() =~= pre.to_set().insert(path.raw@));
                }
            }
        } else {
            let ghost pre = string_views(self.selected@);
            match index_of_path(&self.selected, &path.raw) {
                Some(i) => {
                    self.selected.remove(i);
                    proof {
                        assert(string_views(self.selected@) =~= pre.remove(i as int));
                        lemma_views_remove_to_set(pre, i as int);
                    }
                },
                None => {
                    proof {
                        assert(pre.to_set() =~= pre.to_set().remove(path.raw@));
                    }
                },
            }
        }
    }

    /// What activating promises. Activating the entry the detail pointer
    /// already names clears the pointer (toggle-off); any other path becomes
    /// the new pointer. Single-select keeps the selection equal to what the
    /// pointer names — this path on set, nothing on toggle-off; multi-select
    /// leaves the selection alone.
    pub open spec fn activate_post(pre: Self, post: Self, path: ResolvedPath) -> bool {
        &&& post.mode == pre.mode
        &&& if pre.active_same(path) {
            &&& post.active_detail is None
            &&& if pre.mode is SingleSelect {
                post.selected@.len() == 0
            } else {
                post.selected == pre.selected
            }
        } else {
            &&& post.active_detail == Some(path)
            &&& if pre.mode is SingleSelect {
                string_views(post.selected@) == seq![path.raw@]
            } else {
                post.selected == pre.selected
            }
        }
    }

    /// Opens or closes the detail view on `path`, as [`Self::activate_post`]
    /// states.
    pub fn activate(&mut self, path: ResolvedPath)
        requires
            old(self).wf(),
        ensures
            final (self).wf(),
            Self::activate_post(*old(self), *final (self), path),
    {
        let same = match &self.active_detail {
            Some(a) => is_samedir(a, &path),
            None => false,
        };
        let single = matches!(self.mode, SelectMode::SingleSelect);
        if same {
            self.active_detail = None;
            if single {
                self.selected.clear();
            }
        } else {
            if single {
                self.selected.clear();
                self.selected.push(path.raw.clone());
                proof {
                    assert(string_views(self.selected@) =~= seq![path.raw@]);
                }
            }
            self.active_detail = Some(path);
        }
    }

    /// What dropping an unresolvable detail pointer promises: nothing moves
    /// while the path still resolves; otherwise the pointer clears, and in
    /// single-select mode the selection — which is that same path — clears
    /// with it, while a multi-selection survives untouched.
    pub open spec fn refresh_post(pre: Self, post: Self, still_resolves: bool) -> bool {
        &&& post.mode == pre.mode
        &&& if still_resolves {
            post == pre
        } else {
            &&& post.active_detail is None
            &&& if pre.mode is SingleSelect {
                post.selected@.len() == 0
            } else {
                post.selected == pre.selected
            }
        }
    }

    /// Clears the detail pointer when its path no longer resolves — checked
    /// by the caller against the live filesystem — and keeps it otherwise,
    /// as [`Self::refresh_post`] states.
    pub fn refresh_detail(&mut self, still_resolves: bool)
        requires
            old(self).wf(),
        ensures
            final (self).wf(),
            Self::refresh_post(*old(self), *final (self), still_resolves),
    {
        if !still_resolves {
            self.active_detail = None;
            if matches!(self.mode, SelectMode::SingleSelect) {
                self.selected.clear();
            }
        }
    }
}

/// Whether `x`'s text is among the views of `v`.
fn contains_path(v: &Vec<String>, x: &String) -> (r: bool)
    ensures
        r == string_views(v@).contains(x@),
{
    let n = v.len();
    let mut i: usize = 0;
    while i < n
        invariant
            i <= n,
            n == v@.len(),
            forall|j: int| 0 <= j < i ==> #[trigger] string_views(v@)[j] != x@,
        decreases n - i,
    {
        if v[i] == *x {
            assert(string_views(v@)[i as int] == x@);
            return true;
        }
        i = i + 1;
    }
    assert(!string_views(v@).contains(x@));
    false
}

/// The position of `x`'s text among the views of `v`, if present.
fn index_of_path(v: &Vec<String>, x: &String) -> (r: Option<usize>)
    ensures
        r matches Some(i) ==> i < v@.len() && string_views(v@)[i as int] == x@,
        r is None ==> !string_views(v@).contains(x@),
{
    let n = v.len();
    let mut i: usize = 0;
    while i < n
        invariant
            i <= n,
            n == v@.len(),
            forall|j: int| 0 <= j < i ==> #[trigger] string_views(v@)[j] != x@,
        decreases n - i,
    {
        if v[i] == *x {
            assert(string_views(v@)[i as int] == x@);
            return Some(i);
        }
        i = i + 1;
    }
    assert(!string_views(v@).contains(x@));
    None
}

/// Pushing a value inserts it into the sequence's set.
proof fn lemma_views_push_to_set(s: Seq<Seq<char>>, x: Seq<char>)
    ensures
        s.push(x).to_set() == s.to_set().insert(x),
{
    assert forall|a: Seq<char>| s.push(x).to_set().contains(a) implies s.to_set().insert(
        x,
    ).contains(a) by {
        let i = choose|i: int| 0 <= i < s.push(x).len() && s.push(x)[i] == a;
        if i < s.len() {
            assert(s[i] == a);
        }
    };
    assert forall|a: Seq<char>| s.to_set().insert(x).contains(a) implies s.push(x).to_set()
        .contains(a) by {
        if a == x {
            assert(s.push(x)[s.len() as int] == a);
        } else {
            let i = choose|i: int| 0 <= i < s.len() && s[i] == a;
            assert(s.push(x)[i] == a);
        }
    };
    assert(s.push(x).to_set() =~= s.to_set().insert(x));
}

/// Removing the one position holding a value removes it from the sequence's
/// set, provided the sequence has no duplicates.
proof fn lemma_views_remove_to_set(s: Seq<Seq<char>>, i: int)
    requires
        0 <= i < s.len(),
        forall|a: int, b: int| 0 <= a < b < s.len() ==> #[trigger] s[a] != #[trigger] s[b],
    ensures
        s.remove(i).to_set() == s.to_set().remove(s[i]),
{
    let x = s[i];
    assert forall|a: Seq<char>| s.remove(i).to_set().contains(a) implies s.to_set().remove(
        x,
    ).contains(a) by {
        let j = choose|j: int| 0 <= j < s.remove(i).len() && s.remove(i)[j] == a;
        if j < i {
            assert(s[j] == a);
            assert(a != x);
        } else {
            assert(s[j + 1] == a);
            assert(a != x);
        }
    };
    assert forall|a: Seq<char>| s.to_set().remove(x).contains(a) implies s.remove(i).to_set()
        .contains(a) by {
        let j = choose|j: int| 0 <= j < s.len() && s[j] == a;
        if j < i {
            assert(s.remove(i)[j] == a);
        } else {
            assert(j != i);
            assert(s.remove(i)[j - 1] == a);
        }
    };
    assert(s.remove(i).to_set() =~= s.to_set().remove(x));
}

/// Toggling a path on and back off in multi-select restores the selection:
/// the set, the detail pointer and the mode all return to their first
/// state. Only a path not already selected qualifies — toggling on an
/// already-present path is a no-op, so the later toggle-off would remove it
/// for good.
pub proof fn lemma_toggle_round_trip(
    s0: SelectionManager,
    s1: SelectionManager,
    s2: SelectionManager,
    p: ResolvedPath,
)
    requires
        s0.mode is MultiSelect,
        !s0.selected_set().contains(p.raw@),
        SelectionManager::toggle_post(s0, s1, p, true),
        SelectionManager::toggle_post(s1, s2, p, false),
    ensures
        s2.selected_set() == s0.selected_set(),
        s2.active_detail == s0.active_detail,
        s2.mode == s0.mode,
{
    assert(s2.selected_set() =~= s0.selected_set());
}

/// Activating the same resolvable path twice clears the detail pointer: the
/// first activation opens the detail view on it (given it was not already
/// open on that path), the second closes it.
pub proof fn lemma_activate_round_trip(
    s0: SelectionManager,
    s1: SelectionManager,
    s2: SelectionManager,
    p: ResolvedPath,
)
    requires
        p.is_resolved(),
        !s0.active_same(p),
        SelectionManager::activate_post(s0, s1, p),
        SelectionManager::activate_post(s1, s2, p),
    ensures
        s2.active_detail is None,
{
}

} // verus!
