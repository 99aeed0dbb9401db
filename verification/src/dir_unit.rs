//! The sorted, filterable collection of one directory's classified entries.
//!
//! A [`DirUnit`] owns the entries of the directory on display, kept sorted by
//! name in byte-wise order at all times, together with the completion flag of
//! the scan that fills it. Entries arrive in any order and are merged in
//! place; filtering and capping for display read the collection without
//! touching it, and navigating away replaces the whole unit.

use vstd::prelude::*;
use vstd::multiset::Multiset;
use vstd::seq_lib::to_multiset_insert;
use vstd::seq_lib::group_to_multiset_ensures;
use crate::entry::{core_of, hidden_name, option_view, EntryCore, FsInfo, FsInfoV};
use crate::paths::{
    lemma_lex_leq_total,
    lemma_lex_leq_trans,
    lex_leq,
    name_leq,
    str_bytes,
    ResolvedPath,
};

verus! {

/// The most entries one rendering pass materializes, however many are
/// already scanned: display cost stays bounded by this, not by directory
/// size.
pub const VISIBLE_CAP: usize = 500;

/// Name order on classified entries: byte-wise on the UTF-8 of their names.
pub open spec fn entry_leq(a: FsInfoV, b: FsInfoV) -> bool {
    lex_leq(str_bytes(a.name), str_bytes(b.name))
}

/// The mathematical values of a list of entries.
pub open spec fn entries_view(s: Seq<FsInfo>) -> Seq<FsInfoV> {
    s.map_values(|e: FsInfo| e@)
}

/// The machine-independent cores of a list of entry values.
pub open spec fn cores_of_entries(s: Seq<FsInfoV>) -> Seq<EntryCore> {
    s.map_values(|v: FsInfoV| core_of(v))
}

/// Whether a list of entries is sorted in name order.
pub open spec fn entries_sorted(s: Seq<FsInfoV>) -> bool {
    forall|i: int, j: int| 0 <= i < j < s.len() ==> #[trigger] entry_leq(s[i], s[j])
}

/// No two entries share a name, as holds within one directory.
pub open spec fn distinct_names(s: Seq<FsInfoV>) -> bool {
    forall|i: int, j: int|
        0 <= i < j < s.len() ==> (#[trigger] s[i]).name != (#[trigger] s[j]).name
}

/// With names unique — as they are within one directory — sorted order
/// admits exactly one arrangement of a collection: two name-sorted lists of
/// the same entries are the same list. Merging a batch therefore cannot
/// reorder the entries already shown; it can only interleave the new ones.
pub proof fn lemma_sorted_arrangement_unique(a: Seq<FsInfoV>, b: Seq<FsInfoV>)
    requires
        entries_sorted(a),
        entries_sorted(b),
        distinct_names(a),
        a.to_multiset() == b.to_multiset(),
    ensures
        a == b,
    decreases a.len(),
{
    broadcast use group_to_multiset_ensures;
    broadcast use vstd::multiset::group_multiset_axioms;

    if a.len() == 0 {
        assert(a.to_multiset().len() == 0);
        assert(b.len() == 0);
        assert(a =~= b);
    } else {
        assert(a.to_multiset().count(a[0]) > 0);
        assert(b.contains(a[0]));
        let j = choose|j: int| 0 <= j < b.len() && b[j] == a[0];
        assert(b.to_multiset().count(b[0]) > 0);
        assert(a.contains(b[0]));
        let i = choose|i: int| 0 <= i < a.len() && a[i] == b[0];
        if i != 0 && j != 0 {
            assert(entry_leq(a[0], a[i]));
            assert(entry_leq(b[0], b[j]));
            crate::paths::lemma_lex_leq_antisym(
                str_bytes(a[0].name),
                str_bytes(b[0].name),
            );
            crate::paths::lemma_str_bytes_injective(a[0].name, b[0].name);
            assert(a[i].name == a[0].name);
            assert(false);
        }
        assert(b[0] == a[0]);
        let ar = a.drop_first();
        let br = b.drop_first();
        assert(a.remove(0) =~= ar);
        assert(b.remove(0) =~= br);
        assert(a.remove(0).to_multiset() == a.to_multiset().remove(a[0]));
        assert(b.remove(0).to_multiset() == b.to_multiset().remove(b[0]));
        assert(entries_sorted(ar) && entries_sorted(br) && distinct_names(ar)) by {
            assert(forall|p: int| 0 <= p < ar.len() ==> #[trigger] ar[p] == a[p + 1]);
            assert(forall|p: int| 0 <= p < br.len() ==> #[trigger] br[p] == b[p + 1]);
        };
        lemma_sorted_arrangement_unique(ar, br);
        assert(a =~= seq![a[0]] + ar);
        assert(b =~= seq![b[0]] + br);
    }
}

/// The visibility predicate of the hidden-entry filter: everything when
/// hidden entries are shown, otherwise only names not starting with a dot.
pub open spec fn visible_pred(show_hidden: bool) -> spec_fn(FsInfoV) -> bool {
    |v: FsInfoV| show_hidden || !hidden_name(v.name)
}

/// Whether an entry's canonical path matches a target path: both resolved,
/// to the same form.
pub open spec fn entry_matches_path(v: FsInfoV, t: ResolvedPath) -> bool {
    match (v.canon, t.canon) {
        (Some(a), Some(b)) => a == b@,
        _ => false,
    }
}

/// One directory's entries, sorted by name, with the scan-completion flag.
pub struct DirUnit {
    /// Whether the scan that fills this unit has run out of raw entries.
    pub is_end: bool,
    /// The classified entries, sorted by name.
    pub infos: Vec<FsInfo>,
    /// The directory the entries belong to.
    pub current_dir: ResolvedPath,
}

/// A copy of an entry with the same mathematical value.
pub fn clone_entry(e: &FsInfo) -> (r: FsInfo)
    ensures
        r@ == e@,
{
    match e {
        FsInfo::Dir { path, canon, name, permission, symlink } => {
            let r = FsInfo::Dir {
                path: path.clone(),
                canon: canon.clone(),
                name: name.clone(),
                permission: permission.clone(),
                symlink: symlink.clone(),
            };
            assert(option_view(r->Dir_canon) == option_view(*canon));
            assert(option_view(r->Dir_symlink) == option_view(*symlink));
            r
        },
        FsInfo::File { path, canon, icon, permission, name, symlink, mimeinfo } => {
            let mut mi: Vec<String> = Vec::new();
            let n = mimeinfo.len();
            let mut i: usize = 0;
            while i < n
                invariant
                    i <= n,
                    n == mimeinfo@.len(),
                    mi@ =~= mimeinfo@.take(i as int),
                decreases n - i,
            {
                mi.push(mimeinfo[i].clone());
                assert(mimeinfo@.take(i + 1) =~= mimeinfo@.take(i as int).push(
                    mimeinfo@[i as int],
                ));
                i = i + 1;
            }
            assert(mimeinfo@.take(n as int) =~= mimeinfo@);
            let r = FsInfo::File {
                path: path.clone(),
                canon: canon.clone(),
                icon: icon.clone(),
                permission: permission.clone(),
                name: name.clone(),
                symlink: symlink.clone(),
                mimeinfo: mi,
            };
            assert(option_view(r->File_canon) == option_view(*canon));
            assert(option_view(r->File_symlink) == option_view(*symlink));
            r
        },
    }
}

/// Inserts `e` where name order puts it, keeping the collection sorted and
/// adding exactly `e` to its contents.
fn insert_sorted(infos: &mut Vec<FsInfo>, e: FsInfo)
    requires
        entries_sorted(entries_view(old(infos)@)),
    ensures
        entries_sorted(entries_view(final (infos)@)),
        entries_view(final (infos)@).to_multiset() == entries_view(old(infos)@).to_multiset()
            .insert(e@),
        cores_of_entries(entries_view(final (infos)@)).to_multiset() == cores_of_entries(
            entries_view(old(infos)@),
        ).to_multiset().insert(core_of(e@)),
        final (infos)@.len() == old(infos)@.len() + 1,
{
    let n = infos.len();
    let mut i: usize = 0;
    loop
        invariant
            i <= n,
            n == infos@.len(),
            infos@ == old(infos)@,
            forall|k: int|
                0 <= k < i ==> #[trigger] entry_leq(entries_view(infos@)[k], e@),
        ensures
            i <= n,
            infos@ == old(infos)@,
            forall|k: int|
                0 <= k < i ==> #[trigger] entry_leq(entries_view(infos@)[k], e@),
            i < n ==> entry_leq(e@, entries_view(infos@)[i as int]),
        decreases n - i,
    {
        if i == n {
            break ;
        }
        let cur = &infos[i];
        if name_leq(e.name(), cur.name()) {
            assert(entry_leq(e@, entries_view(infos@)[i as int]));
            break ;
        }
        proof {
            lemma_lex_leq_total(str_bytes(e@.name), str_bytes(entries_view(infos@)[i as int].name));
        }
        i = i + 1;
    }
    let ghost ov = entries_view(infos@);
    infos.insert(i, e);
    proof {
        let nv = entries_view(infos@);
        assert(nv =~= ov.insert(i as int, e@));
        assert forall|a: int, b: int| 0 <= a < b < nv.len() implies #[trigger] entry_leq(
            nv[a],
            nv[b],
        ) by {
            if b < i {
            } else if b == i {
                assert(nv[b] == e@ && nv[a] == ov[a]);
            } else if a == i {
                assert(nv[a] == e@ && nv[b] == ov[b - 1]);
                if b - 1 > i {
                    assert(entry_leq(ov[i as int], ov[b - 1]));
                    lemma_lex_leq_trans(
                        str_bytes(e@.name),
                        str_bytes(ov[i as int].name),
                        str_bytes(ov[b - 1].name),
                    );
                }
            } else if a < i {
                assert(nv[a] == ov[a] && nv[b] == ov[b - 1]);
            } else {
                assert(nv[a] == ov[a - 1] && nv[b] == ov[b - 1]);
            }
        };
        broadcast use to_multiset_insert;

        assert(ov.insert(i as int, e@).to_multiset() == ov.to_multiset().insert(e@));
        assert(cores_of_entries(nv) =~= cores_of_entries(ov).insert(i as int, core_of(e@)));
        assert(cores_of_entries(ov).insert(i as int, core_of(e@)).to_multiset() == cores_of_entries(
            ov,
        ).to_multiset().insert(core_of(e@)));
    }
}

impl DirUnit {
    /// The collection's standing invariant: entries sorted by name.
    pub open spec fn wf(&self) -> bool {
        entries_sorted(entries_view(self.infos@))
    }

    /// A fresh unit for `dir`: empty, scan not yet complete.
    pub fn enter(dir: ResolvedPath) -> (r: DirUnit)
        ensures
            r.wf(),
            !r.is_end,
            r.infos@.len() == 0,
            r.current_dir == dir,
    {
        DirUnit { is_end: false, infos: Vec::new(), current_dir: dir }
    }

    /// Marks the scan complete. Nothing else changes, and nothing resets the
    /// flag short of a fresh scan.
    pub fn set_end(&mut self)
        ensures
            final (self).is_end,
            final (self).infos == old(self).infos,
            final (self).current_dir == old(self).current_dir,
    {
        self.is_end = true;
    }

    /// The sorted entries.
    pub fn fs_infos(&self) -> (r: &Vec<FsInfo>)
        ensures
            r == &self.infos,
    {
        &self.infos
    }

    /// Whether the scan that fills this unit has completed.
    pub fn scan_complete(&self) -> (r: bool)
        ensures
            r == self.is_end,
    {
        self.is_end
    }

    /// The directory the entries belong to.
    pub fn current_dir(&self) -> (r: &ResolvedPath)
        ensures
            r == &self.current_dir,
    {
        &self.current_dir
    }

    /// Merges one classified entry into the collection, keeping it sorted
    /// and adding exactly that entry.
    pub fn insert_one(&mut self, e: FsInfo)
        requires
            old(self).wf(),
        ensures
            final (self).wf(),
            entries_view(final (self).infos@).to_multiset() == entries_view(old(self).infos@)
                .to_multiset().insert(e@),
            cores_of_entries(entries_view(final (self).infos@)).to_multiset() == cores_of_entries(
                entries_view(old(self).infos@),
            ).to_multiset().insert(core_of(e@)),
            final (self).infos@.len() == old(self).infos@.len() + 1,
            final (self).is_end == old(self).is_end,
            final (self).current_dir == old(self).current_dir,
    {
        insert_sorted(&mut self.infos, e);
    }

    /// Merges a batch of classified entries into the collection: afterwards
    /// it holds exactly the old entries plus the batch, still sorted.
    /// Previously present entries keep their relative order — by
    /// [`lemma_sorted_arrangement_unique`], sorted order admits only one
    /// arrangement of them — and the flag and directory are untouched.
    pub fn append_infos(&mut self, dirs: Vec<FsInfo>)
        requires
            old(self).wf(),
        ensures
            final (self).wf(),
            entries_view(final (self).infos@).to_multiset() == entries_view(old(self).infos@)
                .to_multiset().add(entries_view(dirs@).to_multiset()),
            final (self).infos@.len() == old(self).infos@.len() + dirs@.len(),
            final (self).is_end == old(self).is_end,
            final (self).current_dir == old(self).current_dir,
    {
        broadcast use group_to_multiset_ensures;

        let ghost total = entries_view(old(self).infos@).to_multiset().add(
            entries_view(dirs@).to_multiset(),
        );
        let mut rest = dirs;
        while rest.len() > 0
            invariant
                self.wf(),
                entries_view(self.infos@).to_multiset().add(entries_view(rest@).to_multiset())
                    =~= total,
                self.infos@.len() + rest@.len() == old(self).infos@.len()
                    + entries_view(dirs@).to_multiset().len(),
                self.is_end == old(self).is_end,
                self.current_dir == old(self).current_dir,
                total == entries_view(old(self).infos@).to_multiset().add(
                    entries_view(dirs@).to_multiset(),
                ),
            decreases rest.len(),
        {
            let ghost old_rest = rest@;
            let ghost old_infos = entries_view(self.infos@);
            let x = rest.pop().unwrap();
            proof {
                assert(entries_view(old_rest) =~= entries_view(rest@).push(x@));
                vstd::seq_lib::to_multiset_build(entries_view(rest@), x@);
                assert(entries_view(old_rest).to_multiset() == entries_view(rest@).to_multiset()
                    .insert(x@));
            }
            insert_sorted(&mut self.infos, x);
            proof {
                assert(entries_view(self.infos@).to_multiset().add(
                    entries_view(rest@).to_multiset(),
                ) =~= old_infos.to_multiset().insert(x@).add(entries_view(rest@).to_multiset()));
                assert(old_infos.to_multiset().insert(x@).add(entries_view(rest@).to_multiset())
                    =~= old_infos.to_multiset().add(
                    entries_view(rest@).to_multiset().insert(x@),
                ));
            }
        }
        proof {
            assert(entries_view(rest@) =~= Seq::<FsInfoV>::empty());
            assert(entries_view(rest@).to_multiset() =~= Multiset::<FsInfoV>::empty());
            assert(entries_view(self.infos@).to_multiset() =~= total);
            broadcast use vstd::seq_lib::to_multiset_len;

        }
    }

    /// The entries passing the hidden-name filter, in their sorted order.
    /// Filtering reads the collection; it never rescans or reorders.
    pub fn filtered_entries(&self, show_hidden: bool) -> (r: Vec<FsInfo>)
        ensures
            entries_view(r@) == entries_view(self.infos@).filter(visible_pred(show_hidden)),
    {
        let mut out: Vec<FsInfo> = Vec::new();
        let n = self.infos.len();
        let mut i: usize = 0;
        while i < n
            invariant
                i <= n,
                n == self.infos@.len(),
                entries_view(out@) =~= entries_view(self.infos@.take(i as int)).filter(
                    visible_pred(show_hidden),
                ),
            decreases n - i,
        {
            let ghost pre = entries_view(self.infos@.take(i as int));
            let keep = show_hidden || !self.infos[i].is_hidden();
            if keep {
                let copy = clone_entry(&self.infos[i]);
                out.push(copy);
            }
            proof {
                reveal(Seq::filter);
                let cur = entries_view(self.infos@.take(i + 1));
                assert(cur.drop_last() =~= pre);
                assert(cur.last() == self.infos@[i as int]@);
                assert(cur.len() != 0);
                if keep {
                    assert(cur.filter(visible_pred(show_hidden)) == pre.filter(
                        visible_pred(show_hidden),
                    ).push(self.infos@[i as int]@));
                } else {
                    assert(cur.filter(visible_pred(show_hidden)) == pre.filter(
                        visible_pred(show_hidden),
                    ));
                }
            }
            i = i + 1;
        }
        proof {
            assert(self.infos@.take(n as int) =~= self.infos@);
        }
        out
    }

    /// The entries a rendering pass materializes: the hidden-name filter
    /// applied to the sorted collection, cut off at [`VISIBLE_CAP`].
    pub fn visible_entries(&self, show_hidden: bool) -> (r: Vec<FsInfo>)
        ensures
            ({
                let f = entries_view(self.infos@).filter(visible_pred(show_hidden));
                entries_view(r@) == if f.len() <= VISIBLE_CAP {
                    f
                } else {
                    f.take(VISIBLE_CAP as int)
                }
            }),
    {
        let mut all = self.filtered_entries(show_hidden);
        let ghost f = entries_view(all@);
        if all.len() > VISIBLE_CAP {
            all.truncate(VISIBLE_CAP);
            proof {
                assert(entries_view(all@) =~= f.take(VISIBLE_CAP as int));
            }
        }
        all
    }

    /// The entry whose canonical path matches `target`, if one is here. An
    /// unresolvable target matches nothing.
    pub fn find_unit(&self, target: &ResolvedPath) -> (r: Option<&FsInfo>)
        ensures
            r matches Some(e) ==> entry_matches_path(e@, *target) && exists|k: int|
                0 <= k < self.infos@.len() && self.infos@[k] == *e,
            r is None ==> forall|k: int|
                0 <= k < self.infos@.len() ==> !entry_matches_path(
                    #[trigger] entries_view(self.infos@)[k],
                    *target,
                ),
    {
        let n = self.infos.len();
        let mut i: usize = 0;
        while i < n
            invariant
                i <= n,
                n == self.infos@.len(),
                forall|k: int|
                    0 <= k < i ==> !entry_matches_path(
                        #[trigger] entries_view(self.infos@)[k],
                        *target,
                    ),
            decreases n - i,
        {
            let e = &self.infos[i];
            let hit = match (e.canon(), &target.canon) {
                (Some(a), Some(b)) => *a == *b,
                _ => false,
            };
            if hit {
                assert(entry_matches_path(entries_view(self.infos@)[i as int], *target));
                return Some(&self.infos[i]);
            }
            assert(!entry_matches_path(entries_view(self.infos@)[i as int], *target));
            i = i + 1;
        }
        None
    }
}

} // verus!
