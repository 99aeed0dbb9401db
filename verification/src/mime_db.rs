//! The shared-MIME-database service, consumed at its interface.
//!
//! MIME candidates for a file name and generic icon names come from the
//! `xdg_mime` crate, which loads the freedesktop shared MIME database from
//! disk when the caller constructs it. What those lookups return therefore
//! depends on the machine; classification takes their answers as inputs and
//! is verified for every answer.

use vstd::prelude::*;
use crate::entry::{
    classify_core,
    classify_err,
    classify_spec,
    classify_result_view,
    core_of,
    dir_icon,
    option_view,
    raw_core,
    raw_ok,
    ClassifyError,
    FsInfo,
    RawEntry,
};
use crate::paths::string_views;

verus! {

#[verifier::external_type_specification]
#[verifier::external_body]
pub struct ExSharedMimeInfo(xdg_mime::SharedMimeInfo);

/// Relies on `xdg_mime::SharedMimeInfo::get_mime_types_from_file_name`: the
/// MIME types whose globs match the file name, or `application/octet-stream`
/// alone when none does — never an empty list. Which types match depends on
/// the database loaded from disk.
#[verifier::external_body]
pub(crate) fn mime_candidates(db: &xdg_mime::SharedMimeInfo, name: &str) -> (r: Vec<String>)
    ensures
        r@.len() >= 1,
{
    db.get_mime_types_from_file_name(name).iter().map(|m| m.to_string()).collect()
}

/// Relies on `xdg_mime::SharedMimeInfo::lookup_generic_icon_name`: the
/// generic icon the database records for a MIME type, defaulting to
/// `{type}-x-generic`. `None` only when the given text does not parse as a
/// MIME type (`mime::Mime::from_str` converts the argument).
#[verifier::external_body]
pub(crate) fn generic_icon_name(db: &xdg_mime::SharedMimeInfo, mime: &str) -> (r: Option<String>) {
    match mime.parse::<mime::Mime>() {
        Ok(m) => db.lookup_generic_icon_name(&m),
        Err(_) => None,
    }
}

/// Classifies one raw entry, asking the MIME database for the candidates and
/// the generic icon of its name. Everything except the MIME-derived icon and
/// candidate list — which depend on the database on disk — is pinned: the
/// entry's kind, path, name, permissions and symlink target are exactly
/// those of the raw entry, and an error comes exactly when the raw entry has
/// no textual name or no metadata.
pub fn classify_entry(db: &xdg_mime::SharedMimeInfo, raw: &RawEntry) -> (r: Result<
    FsInfo,
    ClassifyError,
>)
    ensures
        r is Ok <==> raw_ok(raw@),
        r matches Err(e) ==> e == classify_err(raw@),
        r matches Ok(e) ==> core_of(e@) == raw_core(raw@),
        r matches Ok(e) ==> (e@.is_dir ==> e@.icon == dir_icon() && e@.mimeinfo
            == Seq::<Seq<char>>::empty()),
        r matches Ok(e) ==> (!e@.is_dir ==> e@.mimeinfo.len() >= 1),
{
    let mimes: Vec<String>;
    let gicon: Option<String>;
    match &raw.name {
        Some(n) => {
            let cand = mime_candidates(db, n.as_str());
            let g = if cand.len() > 0 {
                generic_icon_name(db, cand[0].as_str())
            } else {
                None
            };
            mimes = cand;
            gicon = g;
        },
        None => {
            mimes = Vec::new();
            gicon = None;
        },
    }
    let r = classify_core(raw, mimes, gicon);
    proof {
        let expect = classify_spec(raw@, string_views(mimes@), option_view(gicon));
        assert(classify_result_view(r) == expect);
    }
    r
}

} // verus!
