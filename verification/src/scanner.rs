//! The incremental directory-scan state machine.
//!
//! A scan starts from the raw listing the enumeration service retrieved for
//! one directory and owns a cursor into it. Small listings are consumed to
//! completion before the scanner is handed back, so a small directory never
//! shows a loading state; listings at or above [`SCAN_SYNC_THRESHOLD`] are
//! consumed one classified entry per [`DirScanner::step`], so the caller can
//! interleave rendering with arbitrarily large directories. Raw entries that
//! fail to classify are skipped and the scan continues.
//!
//! At every moment the collection holds exactly the classifiable entries of
//! the listing prefix behind the cursor, sorted by name: every intermediate
//! snapshot is sorted, and the collection only grows until the scan
//! completes. Starting a scan for a new directory replaces the whole
//! scanner, which cancels an unfinished scan by abandoning it.

use vstd::prelude::*;
use crate::dir_unit::{cores_of_entries, entries_view, DirUnit};
use crate::entry::{core_of, raw_core, raw_ok, EntryCore, FsInfo, RawEntry, RawEntryV};
use crate::mime_db::classify_entry;
use crate::paths::ResolvedPath;

verus! {

/// Listings shorter than this are scanned to completion before the directory
/// becomes visible; longer ones are scanned incrementally, one entry per
/// step.
pub const SCAN_SYNC_THRESHOLD: usize = 1000;

/// Why a scan would not start.
#[derive(Debug, Clone, Copy, PartialEq, Eq, Structural)]
pub enum ScanError {
    /// The navigation target is not an enumerable directory. The caller
    /// keeps its previous state.
    NotADirectory,
}

/// What one scan step yielded.
#[derive(Debug)]
pub enum StepResult {
    /// One raw entry classified and merged into the collection; this is it.
    Produced(FsInfo),
    /// No raw entries remain; the scan is now complete.
    Exhausted,
}

/// The mathematical values of a raw listing.
pub open spec fn raw_views(s: Seq<RawEntry>) -> Seq<RawEntryV> {
    s.map_values(|r: RawEntry| r@)
}

/// The cores of the entries that classifying a raw listing yields, in
/// listing order: one per classifiable raw entry.
pub open spec fn scan_cores(s: Seq<RawEntryV>) -> Seq<EntryCore>
    decreases s.len(),
{
    if s.len() == 0 {
        Seq::empty()
    } else if raw_ok(s.last()) {
        scan_cores(s.drop_last()).push(raw_core(s.last()))
    } else {
        scan_cores(s.drop_last())
    }
}

/// Extending the scanned prefix by one raw entry extends its cores by that
/// entry's core exactly when it classifies.
proof fn lemma_scan_cores_step(s: Seq<RawEntryV>, n: int)
    requires
        0 <= n < s.len(),
    ensures
        scan_cores(s.take(n + 1)) == if raw_ok(s[n]) {
            scan_cores(s.take(n)).push(raw_core(s[n]))
        } else {
            scan_cores(s.take(n))
        },
{
    let t = s.take(n + 1);
    assert(t.drop_last() =~= s.take(n));
    assert(t.last() == s[n]);
}

/// Every snapshot a well-formed scan shows is sorted by name — at any
/// moment, complete or not. Its length never shrinks from one step to the
/// next ([`DirScanner::step`]'s contract), so intermediate snapshots grow
/// monotonically until the scan completes.
pub proof fn lemma_snapshot_sorted(s: DirScanner)
    requires
        s.wf(),
    ensures
        crate::dir_unit::entries_sorted(entries_view(s.unit.infos@)),
{
}

/// One scan over one directory's raw listing.
pub struct DirScanner {
    /// The retrieved raw listing, fixed for the scan's lifetime.
    pub raw: Vec<RawEntry>,
    /// How many raw entries have been consumed.
    pub cursor: usize,
    /// The sorted collection the scan fills, with its completion flag.
    pub unit: DirUnit,
}

impl DirScanner {
    /// The scan's standing invariant: the collection is sorted and holds
    /// exactly the classifiable entries of the listing prefix behind the
    /// cursor; completion is only ever declared with the listing exhausted.
    pub open spec fn wf(&self) -> bool {
        &&& self.unit.wf()
        &&& self.cursor <= self.raw@.len()
        &&& cores_of_entries(entries_view(self.unit.infos@)).to_multiset() == scan_cores(
            raw_views(self.raw@).take(self.cursor as int),
        ).to_multiset()
        &&& (self.unit.is_end ==> self.cursor == self.raw@.len())
    }

    /// A scan awaiting its listing: nothing consumed, nothing collected, not
    /// complete. This is the state between asking the enumeration service
    /// for `dir` and its answer arriving.
    pub fn pending(dir: ResolvedPath) -> (r: DirScanner)
        ensures
            r.wf(),
            r.unit.current_dir == dir,
            !r.unit.is_end,
            r.unit.infos@.len() == 0,
            r.raw@.len() == 0,
            r.cursor == 0,
    {
        let r = DirScanner { raw: Vec::new(), cursor: 0, unit: DirUnit::enter(dir) };
        proof {
            assert(raw_views(r.raw@).take(0) =~= Seq::<RawEntryV>::empty());
            assert(cores_of_entries(entries_view(r.unit.infos@)) =~= Seq::<EntryCore>::empty());
        }
        r
    }

    /// Begins a scan of `dir` from the listing the enumeration service
    /// retrieved for it, `None` when the target could not be enumerated —
    /// then nothing starts and the caller keeps its previous state. A
    /// listing below [`SCAN_SYNC_THRESHOLD`] is scanned to completion here,
    /// so the scanner comes back complete, holding one entry per
    /// classifiable raw entry; a longer listing comes back untouched, to be
    /// driven by [`DirScanner::step`].
    pub fn start(dir: ResolvedPath, listing: Option<Vec<RawEntry>>, db: &xdg_mime::SharedMimeInfo)
        -> (r: Result<DirScanner, ScanError>)
        ensures
            r is Ok <==> listing is Some,
            r matches Err(e) ==> e == ScanError::NotADirectory,
            r matches Ok(s) ==> {
                &&& s.wf()
                &&& s.unit.current_dir == dir
                &&& s.raw@ == (listing->0)@
                &&& (s.raw@.len() < SCAN_SYNC_THRESHOLD ==> s.unit.is_end
                    && s.unit.infos@.len() == scan_cores(raw_views(s.raw@)).len())
                &&& (s.raw@.len() >= SCAN_SYNC_THRESHOLD ==> !s.unit.is_end && s.cursor == 0
                    && s.unit.infos@.len() == 0)
            },
    {
        let raw = match listing {
            Some(v) => v,
            None => {
                return Err(ScanError::NotADirectory);
            },
        };
        let mut s = DirScanner { raw, cursor: 0, unit: DirUnit::enter(dir) };
        proof {
            assert(raw_views(s.raw@).take(0) =~= Seq::<RawEntryV>::empty());
            assert(cores_of_entries(entries_view(s.unit.infos@)) =~= Seq::<EntryCore>::empty());
        }
        let ghost raw0: Vec<RawEntry> = s.raw;
        if s.raw.len() < SCAN_SYNC_THRESHOLD {
            loop
                invariant
                    s.wf(),
                    s.unit.current_dir == dir,
                    s.raw == raw0,
                    s.raw@.len() < SCAN_SYNC_THRESHOLD,
                ensures
                    s.wf(),
                    s.unit.current_dir == dir,
                    s.raw == raw0,
                    s.unit.is_end,
                decreases s.raw@.len() - s.cursor,
            {
                let ghost pre = s.cursor;
                match s.step(db) {
                    StepResult::Exhausted => {
                        break ;
                    },
                    StepResult::Produced(_) => {
                        assert(s.cursor > pre);
                    },
                }
            }
            proof {
                assert(raw_views(s.raw@).take(s.raw@.len() as int) =~= raw_views(s.raw@));
                vstd::seq_lib::to_multiset_len(cores_of_entries(entries_view(s.unit.infos@)));
                vstd::seq_lib::to_multiset_len(scan_cores(raw_views(s.raw@)));
            }
        }
        Ok(s)
    }

    /// Consumes raw entries until one classifies — merged into the sorted
    /// collection and handed back — or the listing runs out, which marks the
    /// scan complete. Raw entries that fail to classify are skipped. The
    /// collection never shrinks, the listing and directory never change, and
    /// every intermediate collection is sorted.
    pub fn step(&mut self, db: &xdg_mime::SharedMimeInfo) -> (r: StepResult)
        requires
            old(self).wf(),
        ensures
            final (self).wf(),
            final (self).raw == old(self).raw,
            final (self).unit.current_dir == old(self).unit.current_dir,
            old(self).cursor <= final (self).cursor <= final (self).raw@.len(),
            final (self).unit.infos@.len() >= old(self).unit.infos@.len(),
            r matches StepResult::Produced(e) ==> {
                &&& final (self).cursor > old(self).cursor
                &&& raw_ok(raw_views(final (self).raw@)[final (self).cursor - 1])
                &&& core_of(e@) == raw_core(raw_views(final (self).raw@)[final (self).cursor - 1])
                &&& (forall|k: int|
                    old(self).cursor <= k < final (self).cursor - 1 ==> !raw_ok(
                        #[trigger] raw_views(final (self).raw@)[k],
                    ))
                &&& final (self).unit.infos@.len() == old(self).unit.infos@.len() + 1
                &&& !final (self).unit.is_end
            },
            r is Exhausted ==> {
                &&& final (self).cursor == final (self).raw@.len()
                &&& final (self).unit.is_end
                &&& final (self).unit.infos == old(self).unit.infos
                &&& (forall|k: int|
                    old(self).cursor <= k < final (self).cursor ==> !raw_ok(
                        #[trigger] raw_views(final (self).raw@)[k],
                    ))
            },
    {
        loop
            invariant
                self.wf(),
                self.raw == old(self).raw,
                self.unit.current_dir == old(self).unit.current_dir,
                self.unit.infos == old(self).unit.infos,
                self.unit.is_end == old(self).unit.is_end,
                old(self).cursor <= self.cursor <= self.raw@.len(),
                forall|k: int|
                    old(self).cursor <= k < self.cursor ==> !raw_ok(
                        #[trigger] raw_views(self.raw@)[k],
                    ),
            decreases self.raw@.len() - self.cursor,
        {
            if self.cursor == self.raw.len() {
                self.unit.set_end();
                return StepResult::Exhausted;
            }
            let ghost n = self.cursor as int;
            let res = classify_entry(db, &self.raw[self.cursor]);
            self.cursor = self.cursor + 1;
            proof {
                lemma_scan_cores_step(raw_views(self.raw@), n);
            }
            match res {
                Ok(e) => {
                    let ghost old_cores = cores_of_entries(entries_view(self.unit.infos@));
                    let out = crate::dir_unit::clone_entry(&e);
                    self.unit.insert_one(e);
                    proof {
                        vstd::seq_lib::to_multiset_build(
                            scan_cores(raw_views(self.raw@).take(n)),
                            raw_core(raw_views(self.raw@)[n]),
                        );
                    }
                    return StepResult::Produced(out);
                },
                Err(_) => {
                    assert(!raw_ok(raw_views(self.raw@)[n]));
                },
            }
        }
    }
}

} // verus!
