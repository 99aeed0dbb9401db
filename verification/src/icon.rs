//! Icon resolution and the injected icon-handle cache.
//!
//! An entry's icon identifier is decided here from its classification and
//! the icon-theme lookup's answer: a theme hit names the asset by path, and
//! a miss falls back to the built-in directory or text icon. Loaded handles
//! live in an [`IconCache`], constructed once at startup and passed to call
//! sites: a key is resolved at most once, entries are never evicted or
//! replaced, and the cache grows with the number of distinct icon names in
//! use, not with directory size.

use vstd::prelude::*;
use crate::entry::{FsInfo, FsInfoV, IconKeyV};

verus! {

/// What a display icon is loaded from: a themed asset on disk, or one of
/// the two built-in images.
#[derive(Debug)]
pub enum IconKey {
    /// The built-in generic text icon.
    Text,
    /// The built-in directory icon.
    Dir,
    /// A themed icon asset at this path.
    Path(String),
}

impl View for IconKey {
    type V = IconKeyV;

    open spec fn view(&self) -> IconKeyV {
        match self {
            IconKey::Text => IconKeyV::Text,
            IconKey::Dir => IconKeyV::Dir,
            IconKey::Path(p) => IconKeyV::Path(p@),
        }
    }
}

/// Whether two keys name the same icon.
pub fn key_eq(a: &IconKey, b: &IconKey) -> (r: bool)
    ensures
        r == (a@ == b@),
{
    match (a, b) {
        (IconKey::Text, IconKey::Text) => true,
        (IconKey::Dir, IconKey::Dir) => true,
        (IconKey::Path(x), IconKey::Path(y)) => *x == *y,
        _ => false,
    }
}

/// The icon to load for an entry, given the icon theme's answer for the
/// entry's icon name: the theme asset when the lookup hit, else the built-in
/// icon of the entry's kind.
pub open spec fn icon_key_spec(v: FsInfoV, theme_hit: Option<Seq<char>>) -> IconKeyV {
    match theme_hit {
        Some(p) => IconKeyV::Path(p),
        None => if v.is_dir {
            IconKeyV::Dir
        } else {
            IconKeyV::Text
        },
    }
}

/// Decides the icon key of an entry from the theme lookup's answer, as
/// [`icon_key_spec`] states.
pub fn resolve_icon_key(e: &FsInfo, theme_hit: Option<String>) -> (r: IconKey)
    ensures
        r@ == icon_key_spec(e@, crate::entry::option_view(theme_hit)),
{
    match theme_hit {
        Some(p) => IconKey::Path(p),
        None => {
            if e.is_dir() {
                IconKey::Dir
            } else {
                IconKey::Text
            }
        },
    }
}

/// Whether an entry is drawn straight from its own file as a raster image:
/// it carries the generic image icon and image previews are enabled.
pub open spec fn renders_as_image(v: FsInfoV, preview_images: bool) -> bool {
    v.icon == crate::entry::image_generic_icon() && preview_images
}

/// Decides raster-image rendering, as [`renders_as_image`] states. Vector
/// images bypass this: [`FsInfo::is_svg`] is checked first and is not gated
/// by the preview setting.
pub fn render_as_image(e: &FsInfo, preview_images: bool) -> (r: bool)
    ensures
        r == renders_as_image(e@, preview_images),
{
    e.is_image() && preview_images
}

/// The theme icon names worth looking up for an entry, most specific first:
/// the MIME-derived refinement of the generic text icon when the entry has
/// one, then the entry's own icon name.
pub open spec fn icon_candidates_spec(v: FsInfoV) -> Seq<Seq<char>> {
    match crate::entry::text_icon_spec(v) {
        Some(t) => seq![t, v.icon],
        None => seq![v.icon],
    }
}

/// The theme icon names to try for an entry, in order, as
/// [`icon_candidates_spec`] states. The caller asks the icon-theme service
/// for each in turn and falls back to the built-in icon of the entry's kind
/// when none is found.
pub fn icon_name_candidates(e: &FsInfo) -> (r: Vec<String>)
    ensures
        crate::paths::string_views(r@) == icon_candidates_spec(e@),
{
    let mut out: Vec<String> = Vec::new();
    match e.text_icon_name() {
        Some(t) => {
            out.push(t);
        },
        None => {
        },
    }
    out.push(e.icon().to_owned());
    proof {
        assert(crate::paths::string_views(out@) =~= icon_candidates_spec(e@));
    }
    out
}

/// The memoizing cache of loaded icon handles, keyed by what the handle was
/// loaded from.
pub struct IconCache<V> {
    /// The resolved handles, each key at most once.
    pub entries: Vec<(IconKey, V)>,
}

/// The keys bound in a cache, in insertion order.
pub open spec fn cache_keys<V>(s: Seq<(IconKey, V)>) -> Seq<IconKeyV> {
    s.map_values(|p: (IconKey, V)| p.0@)
}

impl<V> IconCache<V> {
    /// The cache invariant: no key is bound twice, so each key was resolved
    /// at most once.
    pub open spec fn wf(&self) -> bool {
        forall|i: int, j: int|
            0 <= i < j < self.entries@.len() ==> #[trigger] cache_keys(self.entries@)[i]
                != #[trigger] cache_keys(self.entries@)[j]
    }

    /// Whether the cache holds a handle for `k`.
    pub open spec fn has_key(&self, k: IconKeyV) -> bool {
        cache_keys(self.entries@).contains(k)
    }

    /// An empty cache, built once at startup.
    pub fn new() -> (r: Self)
        ensures
            r.wf(),
            r.entries@.len() == 0,
    {
        IconCache { entries: Vec::new() }
    }

    /// The cached handle for `key`, if resolution already happened.
    pub fn lookup(&self, key: &IconKey) -> (r: Option<&V>)
        ensures
            r matches Some(v) ==> exists|i: int|
                0 <= i < self.entries@.len() && #[trigger] self.entries@[i].0@ == key@
                    && self.entries@[i].1 == *v,
            r is None ==> !self.has_key(key@),
    {
        let n = self.entries.len();
        let mut i: usize = 0;
        while i < n
            invariant
                i <= n,
                n == self.entries@.len(),
                forall|j: int| 0 <= j < i ==> #[trigger] cache_keys(self.entries@)[j] != key@,
            decreases n - i,
        {
            if key_eq(&self.entries[i].0, key) {
                assert(self.entries@[i as int].0@ == key@);
                return Some(&self.entries[i].1);
            }
            assert(cache_keys(self.entries@)[i as int] != key@);
            i = i + 1;
        }
        assert(!cache_keys(self.entries@).contains(key@));
        None
    }

    /// Records the freshly resolved handle for `key`. Only a missing key may
    /// be inserted — resolution happens at most once per key — and every
    /// existing binding survives unchanged.
    pub fn insert(&mut self, key: IconKey, v: V)
        requires
            old(self).wf(),
            !old(self).has_key(key@),
        ensures
            final (self).wf(),
            final (self).entries@ == old(self).entries@.push((key, v)),
            final (self).has_key(key@),
    {
        let ghost pre = self.entries@;
        self.entries.push((key, v));
        proof {
            assert(cache_keys(self.entries@) =~= cache_keys(pre).push(key@));
            assert forall|i: int, j: int|
                0 <= i < j < self.entries@.len() implies #[trigger] cache_keys(self.entries@)[i]
                != #[trigger] cache_keys(self.entries@)[j] by {
                if j == self.entries@.len() - 1 {
                    assert(cache_keys(self.entries@)[j] == key@);
                    assert(cache_keys(pre)[i] == cache_keys(self.entries@)[i]);
                    if cache_keys(pre)[i] == key@ {
                        assert(cache_keys(pre).contains(key@));
                    }
                }
            };
            assert(cache_keys(self.entries@)[self.entries@.len() - 1] == key@);
        }
    }
}

} // verus!
