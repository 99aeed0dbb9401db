//! Classified directory entries.
//!
//! A [`RawEntry`] is what the directory-enumeration service reports about one
//! filesystem object: its path, its name when representable as text, its
//! metadata when the stat succeeded, and the outcome of resolving it when it
//! is a symlink. Classification turns a raw entry into an [`FsInfo`] — a file
//! or a directory with display metadata derived once — or into a per-entry
//! error that the scan skips over.

use vstd::prelude::*;
use vstd::string::*;
use crate::paths::string_views;
use crate::permissions::{parse_permissions, permission_string};

verus! {

/// Metadata of one raw entry, as the stat call reported it.
#[derive(Debug, Clone, Copy)]
pub struct RawMeta {
    /// The Unix mode word (permission bits).
    pub mode: u32,
    /// Whether the object itself is a directory.
    pub is_dir: bool,
    /// Whether the object is a symbolic link.
    pub is_symlink: bool,
}

/// The outcome of resolving a symlink that resolved.
#[derive(Debug, Clone)]
pub struct LinkInfo {
    /// The resolved target path.
    pub target: String,
    /// Whether the target is a directory.
    pub target_is_dir: bool,
}

/// One entry as the enumeration service reported it, before classification.
#[derive(Debug, Clone)]
pub struct RawEntry {
    /// The entry's own path.
    pub path: String,
    /// Its canonical form, when resolvable.
    pub canon: Option<String>,
    /// The entry's name, when representable as text.
    pub name: Option<String>,
    /// Its metadata, when the stat succeeded.
    pub meta: Option<RawMeta>,
    /// The resolved link target, when the entry is a symlink that resolved.
    pub link: Option<LinkInfo>,
}

/// The mathematical value of a raw entry.
pub struct RawEntryV {
    pub path: Seq<char>,
    pub canon: Option<Seq<char>>,
    pub name: Option<Seq<char>>,
    pub meta: Option<RawMeta>,
    pub link: Option<LinkV>,
}

/// The mathematical value of a resolved link.
pub struct LinkV {
    pub target: Seq<char>,
    pub target_is_dir: bool,
}

/// The view of an optional string.
pub open spec fn option_view(o: Option<String>) -> Option<Seq<char>> {
    match o {
        Some(s) => Some(s@),
        None => None,
    }
}

impl View for LinkInfo {
    type V = LinkV;

    open spec fn view(&self) -> LinkV {
        LinkV { target: self.target@, target_is_dir: self.target_is_dir }
    }
}

impl View for RawEntry {
    type V = RawEntryV;

    open spec fn view(&self) -> RawEntryV {
        RawEntryV {
            path: self.path@,
            canon: option_view(self.canon),
            name: option_view(self.name),
            meta: self.meta,
            link: match self.link {
                Some(l) => Some(l@),
                None => None,
            },
        }
    }
}

/// Why one raw entry failed to classify. Both are per-entry conditions: the
/// scan skips the entry and continues.
#[derive(Debug, Clone, Copy, PartialEq, Eq, Structural)]
pub enum ClassifyError {
    /// The entry's name is not representable as text.
    InvalidName,
    /// The metadata read failed (the entry vanished between listing and
    /// stat, or was unreadable).
    MetadataUnavailable,
}

/// One classified entry: a file with icon and MIME candidates, or a
/// directory. Immutable after creation; a rescan rebuilds the collection
/// rather than patching entries.
#[derive(Debug, Clone)]
pub enum FsInfo {
    File {
        path: String,
        canon: Option<String>,
        icon: String,
        permission: String,
        name: String,
        symlink: Option<String>,
        mimeinfo: Vec<String>,
    },
    Dir {
        path: String,
        canon: Option<String>,
        name: String,
        permission: String,
        symlink: Option<String>,
    },
}

/// The mathematical value of a classified entry. Directories carry the fixed
/// directory icon and no MIME candidates.
pub struct FsInfoV {
    pub is_dir: bool,
    pub path: Seq<char>,
    pub canon: Option<Seq<char>>,
    pub name: Seq<char>,
    pub icon: Seq<char>,
    pub permission: Seq<char>,
    pub symlink: Option<Seq<char>>,
    pub mimeinfo: Seq<Seq<char>>,
}

/// The fixed icon name of directories.
pub open spec fn dir_icon() -> Seq<char> {
    "inode-directory"@
}

/// The fallback icon name of files whose MIME lookup yields nothing.
pub open spec fn text_fallback_icon() -> Seq<char> {
    "text-plain"@
}

/// The generic raster-image icon name, which flags inline previewing.
pub open spec fn image_generic_icon() -> Seq<char> {
    "image-x-generic"@
}

/// The generic text icon name, refined by a MIME-derived theme icon.
pub open spec fn text_generic_icon() -> Seq<char> {
    "text-x-generic"@
}

/// The MIME type rendered directly as a vector image.
pub open spec fn svg_mime() -> Seq<char> {
    "image/svg+xml"@
}

impl View for FsInfo {
    type V = FsInfoV;

    open spec fn view(&self) -> FsInfoV {
        match self {
            FsInfo::File { path, canon, icon, permission, name, symlink, mimeinfo } => FsInfoV {
                is_dir: false,
                path: path@,
                canon: option_view(*canon),
                name: name@,
                icon: icon@,
                permission: permission@,
                symlink: option_view(*symlink),
                mimeinfo: string_views(mimeinfo@),
            },
            FsInfo::Dir { path, canon, name, permission, symlink } => FsInfoV {
                is_dir: true,
                path: path@,
                canon: option_view(*canon),
                name: name@,
                icon: dir_icon(),
                permission: permission@,
                symlink: option_view(*symlink),
                mimeinfo: Seq::empty(),
            },
        }
    }
}

/// Whether a raw entry classifies at all: it needs a textual name and
/// readable metadata; everything else degrades rather than fails.
pub open spec fn raw_ok(r: RawEntryV) -> bool {
    r.name is Some && r.meta is Some
}

/// The error a failing raw entry classifies to.
pub open spec fn classify_err(r: RawEntryV) -> ClassifyError {
    if r.name is None {
        ClassifyError::InvalidName
    } else {
        ClassifyError::MetadataUnavailable
    }
}

/// Whether the classified entry is a directory: symlinks follow their
/// resolved target's kind, falling back to the link's own kind when the
/// target did not resolve; everything else goes by its metadata.
pub open spec fn raw_is_dir(r: RawEntryV) -> bool
    recommends
        r.meta is Some,
{
    let m = r.meta->0;
    if m.is_symlink {
        match r.link {
            Some(l) => l.target_is_dir,
            None => m.is_dir,
        }
    } else {
        m.is_dir
    }
}

/// The symlink target recorded on the classified entry: only symlinks carry
/// one, and only when resolution succeeded.
pub open spec fn raw_symlink(r: RawEntryV) -> Option<Seq<char>>
    recommends
        r.meta is Some,
{
    if r.meta->0.is_symlink {
        match r.link {
            Some(l) => Some(l.target),
            None => None,
        }
    } else {
        None
    }
}

/// What classification returns for raw entry `r`, when the MIME service
/// reported candidates `mimes` and generic icon `gicon` for its name.
pub open spec fn classify_spec(
    r: RawEntryV,
    mimes: Seq<Seq<char>>,
    gicon: Option<Seq<char>>,
) -> Result<FsInfoV, ClassifyError> {
    if !raw_ok(r) {
        Err(classify_err(r))
    } else if raw_is_dir(r) {
        Ok(
            FsInfoV {
                is_dir: true,
                path: r.path,
                canon: r.canon,
                name: r.name->0,
                icon: dir_icon(),
                permission: permission_string(r.meta->0.mode),
                symlink: raw_symlink(r),
                mimeinfo: Seq::empty(),
            },
        )
    } else {
        Ok(
            FsInfoV {
                is_dir: false,
                path: r.path,
                canon: r.canon,
                name: r.name->0,
                icon: match gicon {
                    Some(g) => g,
                    None => text_fallback_icon(),
                },
                permission: permission_string(r.meta->0.mode),
                symlink: raw_symlink(r),
                mimeinfo: mimes,
            },
        )
    }
}

/// The machine-independent part of a classified entry: every field that is
/// a function of the raw entry alone, leaving out the icon and MIME
/// candidates that the MIME database on disk decides.
pub struct EntryCore {
    pub is_dir: bool,
    pub path: Seq<char>,
    pub canon: Option<Seq<char>>,
    pub name: Seq<char>,
    pub permission: Seq<char>,
    pub symlink: Option<Seq<char>>,
}

/// The machine-independent part of a classified entry.
pub open spec fn core_of(v: FsInfoV) -> EntryCore {
    EntryCore {
        is_dir: v.is_dir,
        path: v.path,
        canon: v.canon,
        name: v.name,
        permission: v.permission,
        symlink: v.symlink,
    }
}

/// What classification makes of a raw entry, MIME answers aside.
pub open spec fn raw_core(r: RawEntryV) -> EntryCore
    recommends
        raw_ok(r),
{
    EntryCore {
        is_dir: raw_is_dir(r),
        path: r.path,
        canon: r.canon,
        name: r.name->0,
        permission: permission_string(r.meta->0.mode),
        symlink: raw_symlink(r),
    }
}

/// The view of a classification result.
pub open spec fn classify_result_view(r: Result<FsInfo, ClassifyError>) -> Result<
    FsInfoV,
    ClassifyError,
> {
    match r {
        Ok(e) => Ok(e@),
        Err(e) => Err(e),
    }
}

/// A symlink follows its target: one pointing at a directory classifies as a
/// Directory entry with the resolved target recorded. A symlink whose target
/// did not resolve is still produced — with the link's own kind and no
/// target recorded — never dropped.
pub proof fn lemma_symlink_classification(
    r: RawEntryV,
    mimes: Seq<Seq<char>>,
    gicon: Option<Seq<char>>,
)
    requires
        raw_ok(r),
        r.meta->0.is_symlink,
    ensures
        r.link matches Some(l) ==> (classify_spec(r, mimes, gicon) matches Ok(e) && e.is_dir
            == l.target_is_dir && e.symlink == Some(l.target)),
        r.link is None ==> (classify_spec(r, mimes, gicon) matches Ok(e) && e.is_dir == r.meta->0
            .is_dir && e.symlink is None),
{
}

/// Relies on `String::push`: appends exactly the given character.
pub assume_specification[ String::push ](s: &mut String, c: char)
    ensures
        final (s)@ == old(s)@.push(c),
;

/// `m` with every `/` replaced by `-`: how a MIME type names its theme icon.
pub open spec fn dashed_name(m: Seq<char>) -> Seq<char> {
    m.map_values(|c: char| if c == '/' { '-' } else { c })
}

/// The MIME-derived theme icon name of a generic text file, when the entry
/// is a file with the generic text icon and at least one MIME candidate.
pub open spec fn text_icon_spec(v: FsInfoV) -> Option<Seq<char>> {
    if v.is_dir || v.icon != text_generic_icon() || v.mimeinfo.len() == 0 {
        None
    } else {
        Some(dashed_name(v.mimeinfo[0]))
    }
}

impl FsInfo {
    /// The entry's permission string, `rwxrwxrwx` form.
    pub fn permission(&self) -> (r: &str)
        ensures
            r@ == self@.permission,
    {
        match self {
            FsInfo::Dir { permission, .. } => permission.as_str(),
            FsInfo::File { permission, .. } => permission.as_str(),
        }
    }

    /// Whether the entry is a directory.
    pub fn is_dir(&self) -> (r: bool)
        ensures
            r == self@.is_dir,
    {
        matches!(self, FsInfo::Dir { .. })
    }

    /// Whether the entry is a file.
    pub fn is_file(&self) -> (r: bool)
        ensures
            r == !self@.is_dir,
    {
        matches!(self, FsInfo::File { .. })
    }

    /// Whether the entry may be opened: files always, directories exactly
    /// when the caller's attempt to open them succeeded. Readability of a
    /// directory is defined by that attempt, not by its permission bits.
    pub fn is_readable(&self, dir_open_ok: bool) -> (r: bool)
        ensures
            r == (!self@.is_dir || dir_open_ok),
    {
        if self.is_file() {
            return true;
        }
        self.is_dir() && dir_open_ok
    }

    /// Whether the entry is rendered directly as a vector image: a file
    /// whose MIME candidates include the SVG type.
    pub fn is_svg(&self) -> (r: bool)
        ensures
            r == (!self@.is_dir && self@.mimeinfo.contains(svg_mime())),
    {
        let target = String::from_str("image/svg+xml");
        match self {
            FsInfo::Dir { .. } => {
                assert(!self@.mimeinfo.contains(svg_mime()));
                false
            },
            FsInfo::File { mimeinfo, .. } => {
                let n = mimeinfo.len();
                let mut i: usize = 0;
                while i < n
                    invariant
                        i <= n,
                        n == mimeinfo@.len(),
                        target@ == svg_mime(),
                        self@.mimeinfo == string_views(mimeinfo@),
                        forall|j: int| 0 <= j < i ==> string_views(mimeinfo@)[j] != svg_mime(),
                    decreases n - i,
                {
                    if mimeinfo[i] == target {
                        assert(string_views(mimeinfo@)[i as int] == svg_mime());
                        return true;
                    }
                    i = i + 1;
                }
                false
            },
        }
    }

    /// Whether the entry shows as a raster image: its icon is the generic
    /// image icon.
    pub fn is_image(&self) -> (r: bool)
        ensures
            r == (self@.icon == image_generic_icon()),
    {
        let target = String::from_str("image-x-generic");
        match self {
            FsInfo::Dir { .. } => {
                proof {
                    reveal_strlit("inode-directory");
                    reveal_strlit("image-x-generic");
                    assert(dir_icon()[1] == 'n' && image_generic_icon()[1] == 'm');
                }
                false
            },
            FsInfo::File { icon, .. } => *icon == target,
        }
    }

    /// The entry's icon name: its own for files, the fixed directory icon
    /// for directories.
    pub fn icon(&self) -> (r: &str)
        ensures
            r@ == self@.icon,
    {
        match self {
            FsInfo::File { icon, .. } => icon.as_str(),
            FsInfo::Dir { .. } => "inode-directory",
        }
    }

    /// The entry's path.
    pub fn path(&self) -> (r: String)
        ensures
            r@ == self@.path,
    {
        match self {
            FsInfo::Dir { path, .. } => path.clone(),
            FsInfo::File { path, .. } => path.clone(),
        }
    }

    /// The entry's canonical path, when it resolved.
    pub fn canon(&self) -> (r: &Option<String>)
        ensures
            option_view(*r) == self@.canon,
    {
        match self {
            FsInfo::Dir { canon, .. } => canon,
            FsInfo::File { canon, .. } => canon,
        }
    }

    /// Whether the entry is hidden: its name starts with a dot.
    pub fn is_hidden(&self) -> (r: bool)
        ensures
            r == hidden_name(self@.name),
    {
        let name = self.name();
        if name.unicode_len() == 0 {
            return false;
        }
        name.get_char(0) == '.'
    }

    /// Whether the entry is a symlink whose target resolved.
    pub fn is_symlink(&self) -> (r: bool)
        ensures
            r == (self@.symlink is Some),
    {
        match self {
            FsInfo::Dir { symlink, .. } => symlink.is_some(),
            FsInfo::File { symlink, .. } => symlink.is_some(),
        }
    }

    /// The entry's display name: the final component of its path.
    pub fn name(&self) -> (r: &str)
        ensures
            r@ == self@.name,
    {
        match self {
            FsInfo::Dir { name, .. } => name.as_str(),
            FsInfo::File { name, .. } => name.as_str(),
        }
    }

    /// The theme icon name refining the generic text icon: the first MIME
    /// candidate with `/` dashed, for files whose icon is the generic text
    /// icon.
    pub fn text_icon_name(&self) -> (r: Option<String>)
        ensures
            option_view(r) == text_icon_spec(self@),
    {
        let generic = String::from_str("text-x-generic");
        match self {
            FsInfo::Dir { .. } => None,
            FsInfo::File { icon, mimeinfo, .. } => {
                if !(*icon == generic) {
                    return None;
                }
                if mimeinfo.len() == 0 {
                    return None;
                }
                let first: &String = &mimeinfo[0];
                let fs: &str = first.as_str();
                let n = fs.unicode_len();
                let mut out = String::new();
                let mut i: usize = 0;
                while i < n
                    invariant
                        i <= n,
                        n == fs@.len(),
                        out@ =~= dashed_name(fs@.take(i as int)),
                    decreases n - i,
                {
                    let c = fs.get_char(i);
                    let d = if c == '/' {
                        '-'
                    } else {
                        c
                    };
                    out.push(d);
                    assert(dashed_name(fs@.take(i + 1)) =~= dashed_name(fs@.take(i as int)).push(
                        if fs@[i as int] == '/' {
                            '-'
                        } else {
                            fs@[i as int]
                        },
                    ));
                    i = i + 1;
                }
                assert(fs@.take(n as int) =~= fs@);
                assert(string_views(mimeinfo@)[0] == fs@);
                Some(out)
            },
        }
    }
}

/// The mathematical value of an icon key: what a display icon is loaded
/// from.
pub enum IconKeyV {
    Text,
    Dir,
    Path(Seq<char>),
}

/// Whether a name marks a hidden entry: it starts with a dot.
pub open spec fn hidden_name(name: Seq<char>) -> bool {
    name.len() > 0 && name[0] == '.'
}

/// Classifies one raw entry given the MIME service's answers for its name:
/// `mimeinfo` the candidate MIME types, `generic_icon` the generic icon of
/// the first candidate (when there was one and the lookup succeeded). Both
/// are ignored for directories.
pub fn classify_core(
    raw: &RawEntry,
    mimeinfo: Vec<String>,
    generic_icon: Option<String>,
) -> (r: Result<FsInfo, ClassifyError>)
    ensures
        classify_result_view(r) == classify_spec(
            raw@,
            string_views(mimeinfo@),
            option_view(generic_icon),
        ),
{
    let name: String = match &raw.name {
        Some(n) => n.clone(),
        None => {
            return Err(ClassifyError::InvalidName);
        },
    };
    let meta: RawMeta = match &raw.meta {
        Some(m) => *m,
        None => {
            return Err(ClassifyError::MetadataUnavailable);
        },
    };
    let entry_is_dir: bool;
    let symlink: Option<String>;
    if meta.is_symlink {
        match &raw.link {
            Some(l) => {
                entry_is_dir = l.target_is_dir;
                symlink = Some(l.target.clone());
            },
            None => {
                entry_is_dir = meta.is_dir;
                symlink = None;
            },
        }
    } else {
        entry_is_dir = meta.is_dir;
        symlink = None;
    }
    let permission = parse_permissions(meta.mode);
    if entry_is_dir {
        Ok(
            FsInfo::Dir {
                path: raw.path.clone(),
                canon: raw.canon.clone(),
                name,
                permission,
                symlink,
            },
        )
    } else {
        let icon = match generic_icon {
            Some(g) => g,
            None => String::from_str("text-plain"),
        };
        Ok(
            FsInfo::File {
                path: raw.path.clone(),
                canon: raw.canon.clone(),
                icon,
                permission,
                name,
                symlink,
                mimeinfo,
            },
        )
    }
}

} // verus!
