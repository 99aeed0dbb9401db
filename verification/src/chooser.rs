//! The widget's control surface: one state value and one message handler.
//!
//! Every user action and every answer from the filesystem services arrives
//! as a [`Message`]; [`FileChooser::update`] is the function from state and
//! message to next state and [`UpdateAction`] — what the caller must perform
//! next (start an enumeration, close the window, or nothing). The caller
//! drives the loop: it renders from [`FileChooser::snapshot`], performs the
//! action, and feeds the outcome back as the next message.

use vstd::prelude::*;
use crate::dir_unit::entries_view;
use crate::entry::{FsInfo, RawEntry};
use crate::filter::{FilterConfig, MatchKind};
use crate::paths::{clone_resolved, is_samedir, same_path_spec, ResolvedPath};
use crate::portal_option::{clone_filter, default_filter_view, FileChosen, FileFilter, FileFilterV};
use crate::scanner::{raw_views, scan_cores, DirScanner, SCAN_SYNC_THRESHOLD};
use crate::selection::{SelectMode, SelectionManager};

verus! {

/// One event: a user action, or a service's answer to an earlier action.
#[derive(Debug)]
pub enum Message {
    /// A checkbox toggled `path` in or out of the multi-selection.
    RequestMultiSelect(bool, ResolvedPath),
    /// The enumeration service answered for `path`: its raw listing, or
    /// nothing when the target was not an enumerable directory.
    RequestNextDirs(Option<Vec<RawEntry>>, ResolvedPath),
    /// The user activated `path` (detail view / current pick).
    RequestSelect(ResolvedPath),
    /// The user asked to navigate into `path`.
    RequestEnter(ResolvedPath),
    /// The user switched showing hidden entries.
    RequestShowHide(bool),
    /// The user switched inline image previews.
    RequestShowImage(bool),
    /// The user dragged the right splitter.
    RequestAdjustRightSplitter(u16),
    /// The user dragged the left splitter.
    RequestAdjustLeftSplitter(u16),
    /// The user typed in the search box.
    SearchPatternCachedChanged(String),
    /// The user committed the typed pattern.
    SearchPatternChanged,
    /// The user picked another name filter.
    FilterChanged(FileFilter),
    /// The user accepted the dialog.
    Confirm,
    /// The user dismissed the dialog.
    Cancel,
}

/// What the caller must perform after an update.
#[derive(Debug)]
pub enum UpdateAction {
    /// Nothing: render and wait for the next message.
    Idle,
    /// Enumerate this directory and answer with `RequestNextDirs`.
    StartScan(ResolvedPath),
    /// The navigation target was not an enumerable directory; state was
    /// kept.
    NotADirectory,
    /// Close the window.
    CloseWindow,
}

/// The whole widget state outside the presentation layer.
pub struct FileChooser {
    /// The scan of the directory on display.
    pub dir: DirScanner,
    /// The user's view settings.
    pub config: FilterConfig,
    /// The picked paths and the detail pointer.
    pub selection: SelectionManager,
    /// The preview splitter position, when dragged.
    pub right_splitter: Option<u16>,
    /// The sidebar splitter position, when dragged.
    pub left_splitter: Option<u16>,
    /// The request the widget was opened for.
    pub choose_option: FileChosen,
    /// The name filter currently in force.
    pub current_filter: FileFilter,
    /// The name filters on offer: the catch-all, then the request's own.
    pub filters: Vec<FileFilter>,
}

/// The views of a list of filters.
pub open spec fn chooser_filter_views(s: Seq<FileFilter>) -> Seq<FileFilterV> {
    s.map_values(|f: FileFilter| f@)
}

impl FileChooser {
    /// The widget invariant: the scan and the selection each keep their own.
    pub open spec fn wf(&self) -> bool {
        &&& self.dir.wf()
        &&& self.selection.wf()
    }

    /// Everything but the scan state unchanged.
    pub open spec fn frame_except_dir(pre: Self, post: Self) -> bool {
        &&& post.config == pre.config
        &&& post.selection == pre.selection
        &&& post.right_splitter == pre.right_splitter
        &&& post.left_splitter == pre.left_splitter
        &&& post.choose_option == pre.choose_option
        &&& post.current_filter == pre.current_filter
        &&& post.filters == pre.filters
    }

    /// Everything but the selection unchanged.
    pub open spec fn frame_except_selection(pre: Self, post: Self) -> bool {
        &&& post.dir == pre.dir
        &&& post.config == pre.config
        &&& post.right_splitter == pre.right_splitter
        &&& post.left_splitter == pre.left_splitter
        &&& post.choose_option == pre.choose_option
        &&& post.current_filter == pre.current_filter
        &&& post.filters == pre.filters
    }

    /// Everything but the view settings unchanged. In particular the scan
    /// state: changing what shows never rescans.
    pub open spec fn frame_except_config(pre: Self, post: Self) -> bool {
        &&& post.dir == pre.dir
        &&& post.selection == pre.selection
        &&& post.right_splitter == pre.right_splitter
        &&& post.left_splitter == pre.left_splitter
        &&& post.choose_option == pre.choose_option
        &&& post.current_filter == pre.current_filter
        &&& post.filters == pre.filters
    }

    /// The selection mode the request calls for.
    pub open spec fn mode_of(option: FileChosen) -> SelectMode {
        if option@.is_open && option@.multiple {
            SelectMode::MultiSelect
        } else {
            SelectMode::SingleSelect
        }
    }

    /// The target kind the request calls for.
    pub open spec fn kind_of(option: FileChosen) -> MatchKind {
        if option@.is_open && option@.directory {
            MatchKind::DirectoryOnly
        } else {
            MatchKind::FileOnly
        }
    }

    /// A fresh widget for one request, about to scan `start_dir`: empty
    /// selection in the request's mode, fresh view settings for its target
    /// kind, the catch-all filter followed by the request's own, and the
    /// request's current filter (or the catch-all) in force. The returned
    /// action asks the caller to enumerate `start_dir`.
    pub fn new(choose_option: FileChosen, start_dir: ResolvedPath) -> (r: (
        FileChooser,
        UpdateAction,
    ))
        ensures
            r.0.wf(),
            r.1 == UpdateAction::StartScan(start_dir),
            r.0.dir.unit.current_dir == start_dir,
            !r.0.dir.unit.is_end,
            r.0.dir.unit.infos@.len() == 0,
            r.0.selection.mode == Self::mode_of(choose_option),
            r.0.selection.selected@.len() == 0,
            r.0.selection.active_detail is None,
            !r.0.config.show_hidden,
            !r.0.config.preview_images,
            r.0.config.match_kind == Self::kind_of(choose_option),
            chooser_filter_views(r.0.filters@) == seq![default_filter_view()]
                + choose_option@.filters,
            r.0.current_filter@ == match choose_option@.current_filter {
                Some(f) => f,
                None => default_filter_view(),
            },
            r.0.choose_option == choose_option,
            r.0.right_splitter is None,
            r.0.left_splitter == Some(400u16),
    {
        let mode = if choose_option.is_multi_filechooser() {
            SelectMode::MultiSelect
        } else {
            SelectMode::SingleSelect
        };
        let kind = if choose_option.is_directory() {
            MatchKind::DirectoryOnly
        } else {
            MatchKind::FileOnly
        };
        let mut filters: Vec<FileFilter> = Vec::new();
        filters.push(FileFilter::default());
        let offered = choose_option.filters();
        let n = offered.len();
        let mut i: usize = 0;
        while i < n
            invariant
                i <= n,
                n == offered@.len(),
                crate::portal_option::filter_views(offered@) == choose_option@.filters,
                chooser_filter_views(filters@) =~= seq![default_filter_view()]
                    + choose_option@.filters.take(i as int),
            decreases n - i,
        {
            let ghost pre_f = filters@;
            filters.push(clone_filter(&offered[i]));
            proof {
                let lhs = chooser_filter_views(filters@);
                let rhs = seq![default_filter_view()] + choose_option@.filters.take(i + 1);
                assert(chooser_filter_views(pre_f).len() == i + 1);
                assert(pre_f.len() == i + 1);
                assert(filters@ == pre_f.push(filters@[i as int + 1]));
                assert(crate::portal_option::filter_views(offered@)[i as int] == offered@[
                    i as int
                ]@);
                assert(lhs[i as int + 1] == offered@[i as int]@);
                assert(rhs[i as int + 1] == choose_option@.filters[i as int]);
                assert(forall|k: int|
                    0 <= k <= i ==> #[trigger] lhs[k] == chooser_filter_views(pre_f)[k]);
                assert(forall|k: int|
                    0 <= k <= i ==> #[trigger] rhs[k] == (seq![default_filter_view()]
                        + choose_option@.filters.take(i as int))[k]);
                assert(lhs =~= rhs);
            }
            i = i + 1;
        }
        proof {
            assert(choose_option@.filters.take(n as int) =~= choose_option@.filters);
        }
        let current_filter = match choose_option.current_filter() {
            Some(f) => clone_filter(f),
            None => FileFilter::default(),
        };
        let action = UpdateAction::StartScan(clone_resolved(&start_dir));
        let chooser = FileChooser {
            dir: DirScanner::pending(start_dir),
            config: FilterConfig::new(kind),
            selection: SelectionManager::new(mode),
            right_splitter: None,
            left_splitter: Some(400),
            choose_option,
            current_filter,
            filters,
        };
        (chooser, action)
    }

    /// What one update promises, message by message.
    pub open spec fn update_post(pre: Self, post: Self, msg: Message, r: UpdateAction) -> bool {
        match msg {
            Message::RequestNextDirs(listing, pathbuf) => {
                if same_path_spec(pre.dir.unit.current_dir, pathbuf) {
                    match listing {
                        Some(raw) => {
                            &&& r is Idle
                            &&& Self::frame_except_dir(pre, post)
                            &&& post.dir.unit.current_dir == pathbuf
                            &&& post.dir.raw@ == raw@
                            &&& (raw@.len() < SCAN_SYNC_THRESHOLD ==> post.dir.unit.is_end
                                && post.dir.unit.infos@.len() == scan_cores(
                                raw_views(raw@),
                            ).len())
                            &&& (raw@.len() >= SCAN_SYNC_THRESHOLD ==> !post.dir.unit.is_end
                                && post.dir.cursor == 0 && post.dir.unit.infos@.len() == 0)
                        },
                        None => {
                            &&& r is NotADirectory
                            &&& post == pre
                        },
                    }
                } else {
                    r is Idle && post == pre
                }
            },
            Message::RequestEnter(path) => {
                &&& r == UpdateAction::StartScan(path)
                &&& Self::frame_except_dir(pre, post)
                &&& post.dir.unit.current_dir == path
                &&& !post.dir.unit.is_end
                &&& post.dir.unit.infos@.len() == 0
                &&& post.dir.raw@.len() == 0
            },
            Message::RequestShowHide(show) => {
                &&& r is Idle
                &&& Self::frame_except_config(pre, post)
                &&& post.config.show_hidden == show
                &&& post.config.preview_images == pre.config.preview_images
                &&& post.config.match_kind == pre.config.match_kind
                &&& post.config.pattern == pre.config.pattern
                &&& post.config.pattern_cache == pre.config.pattern_cache
            },
            Message::RequestShowImage(show) => {
                &&& r is Idle
                &&& Self::frame_except_config(pre, post)
                &&& post.config.preview_images == show
                &&& post.config.show_hidden == pre.config.show_hidden
                &&& post.config.match_kind == pre.config.match_kind
                &&& post.config.pattern == pre.config.pattern
                &&& post.config.pattern_cache == pre.config.pattern_cache
            },
            Message::RequestMultiSelect(checked, path) => {
                &&& r is Idle
                &&& Self::frame_except_selection(pre, post)
                &&& SelectionManager::toggle_post(pre.selection, post.selection, path, checked)
            },
            Message::RequestSelect(path) => {
                &&& r is Idle
                &&& Self::frame_except_selection(pre, post)
                &&& SelectionManager::activate_post(pre.selection, post.selection, path)
            },
            Message::SearchPatternCachedChanged(pattern) => {
                &&& r is Idle
                &&& Self::frame_except_config(pre, post)
                &&& post.config.pattern_cache@ == pattern@
                &&& post.config.pattern == pre.config.pattern
                &&& post.config.show_hidden == pre.config.show_hidden
                &&& post.config.preview_images == pre.config.preview_images
                &&& post.config.match_kind == pre.config.match_kind
            },
            Message::SearchPatternChanged => {
                &&& r is Idle
                &&& Self::frame_except_config(pre, post)
                &&& post.config.pattern@ == pre.config.pattern_cache@
                &&& post.config.pattern_cache == pre.config.pattern_cache
                &&& post.config.show_hidden == pre.config.show_hidden
                &&& post.config.preview_images == pre.config.preview_images
                &&& post.config.match_kind == pre.config.match_kind
            },
            Message::RequestAdjustRightSplitter(size) => {
                &&& r is Idle
                &&& post == (Self { right_splitter: Some(size), ..pre })
            },
            Message::RequestAdjustLeftSplitter(size) => {
                &&& r is Idle
                &&& post == (Self { left_splitter: Some(size), ..pre })
            },
            Message::FilterChanged(f) => {
                &&& r is Idle
                &&& post == (Self { current_filter: f, ..pre })
            },
            Message::Confirm => r is CloseWindow && post == pre,
            Message::Cancel => r is CloseWindow && post == pre,
        }
    }

    /// Applies one message, as [`Self::update_post`] states: navigation
    /// replaces the scan state wholesale (a stale or still-running scan is
    /// simply abandoned), a listing for a directory no longer on display is
    /// dropped, an unenumerable target leaves everything as it was, view
    /// settings never touch the scan, and selection messages touch only the
    /// selection. The selection survives navigation.
    pub fn update(&mut self, msg: Message, db: &xdg_mime::SharedMimeInfo) -> (r: UpdateAction)
        requires
            old(self).wf(),
        ensures
            final (self).wf(),
            Self::update_post(*old(self), *final (self), msg, r),
    {
        match msg {
            Message::RequestNextDirs(listing, pathbuf) => {
                if is_samedir(&self.dir.unit.current_dir, &pathbuf) {
                    match DirScanner::start(pathbuf, listing, db) {
                        Ok(s) => {
                            self.dir = s;
                            UpdateAction::Idle
                        },
                        Err(_) => UpdateAction::NotADirectory,
                    }
                } else {
                    UpdateAction::Idle
                }
            },
            Message::RequestEnter(path) => {
                self.dir = DirScanner::pending(clone_resolved(&path));
                UpdateAction::StartScan(path)
            },
            Message::RequestShowHide(show) => {
                self.config.show_hidden = show;
                UpdateAction::Idle
            },
            Message::RequestShowImage(show) => {
                self.config.preview_images = show;
                UpdateAction::Idle
            },
            Message::RequestMultiSelect(checked, path) => {
                self.selection.toggle(path, checked);
                UpdateAction::Idle
            },
            Message::RequestSelect(path) => {
                self.selection.activate(path);
                UpdateAction::Idle
            },
            Message::SearchPatternCachedChanged(pattern) => {
                self.config.set_cache_pattern(pattern.as_str());
                UpdateAction::Idle
            },
            Message::SearchPatternChanged => {
                self.config.set_pattern();
                UpdateAction::Idle
            },
            Message::RequestAdjustRightSplitter(size) => {
                self.right_splitter = Some(size);
                UpdateAction::Idle
            },
            Message::RequestAdjustLeftSplitter(size) => {
                self.left_splitter = Some(size);
                UpdateAction::Idle
            },
            Message::FilterChanged(f) => {
                self.current_filter = f;
                UpdateAction::Idle
            },
            Message::Confirm => UpdateAction::CloseWindow,
            Message::Cancel => UpdateAction::CloseWindow,
        }
    }

    /// Clears the detail pointer when its path no longer resolves — the
    /// caller re-resolves it after navigation — as
    /// [`SelectionManager::refresh_post`] states, leaving everything else
    /// alone.
    pub fn refresh_detail(&mut self, still_resolves: bool)
        requires
            old(self).wf(),
        ensures
            final (self).wf(),
            Self::frame_except_selection(*old(self), *final (self)),
            SelectionManager::refresh_post(
                old(self).selection,
                final (self).selection,
                still_resolves,
            ),
    {
        self.selection.refresh_detail(still_resolves);
    }

    /// Whether the request picks directories.
    pub fn is_directory(&self) -> (r: bool)
        ensures
            r == (self.choose_option@.is_open && self.choose_option@.directory),
    {
        self.choose_option.is_directory()
    }

    /// Whether the request accumulates several picks.
    pub fn is_multi_filechooser(&self) -> (r: bool)
        ensures
            r == (self.choose_option@.is_open && self.choose_option@.multiple),
    {
        self.choose_option.is_multi_filechooser()
    }

    /// What the presentation layer renders: the visible entries — the
    /// hidden-name filter over the sorted collection, capped — and whether
    /// the scan is complete.
    pub fn snapshot(&self) -> (r: (Vec<FsInfo>, bool))
        ensures
            r.1 == self.dir.unit.is_end,
            ({
                let f = entries_view(self.dir.unit.infos@).filter(
                    crate::dir_unit::visible_pred(self.config.show_hidden),
                );
                entries_view(r.0@) == if f.len() <= crate::dir_unit::VISIBLE_CAP {
                    f
                } else {
                    f.take(crate::dir_unit::VISIBLE_CAP as int)
                }
            }),
    {
        let visible = self.dir.unit.visible_entries(self.config.show_hidden);
        let complete = self.dir.unit.scan_complete();
        (visible, complete)
    }
}

} // verus!
