//! What the standard library's path and case handling gives for a path or
//! a word written as text. These are the only calls into `std::path` and
//! `str::to_lowercase`; what they return is named here, not restated.

use vstd::prelude::*;

verus! {

/// The file stem (file name without its last extension) that `std::path::Path::file_stem`
/// finds in the path written as `path`, if any, by the path rules of the
/// target platform.
pub uninterp spec fn path_file_stem(path: Seq<char>) -> Option<Seq<char>>;

/// The extension that `std::path::Path::extension` finds in the path written as `path`, if any,
/// by the path rules of the target platform.
pub uninterp spec fn path_extension(path: Seq<char>) -> Option<Seq<char>>;

/// The last component that `std::path::Path::file_name` finds in the path written as `path`,
/// if any, by the path rules of the target platform.
pub uninterp spec fn path_file_name(path: Seq<char>) -> Option<Seq<char>>;

/// The text that `str::to_lowercase` makes of `s`.
pub uninterp spec fn lowercase(s: Seq<char>) -> Seq<char>;

/// Calls `std::path::Path::file_stem` on `path`. The claim is only that the
/// result is the one named `path_file_stem` for this text; the stem of a
/// path given as UTF-8 text is UTF-8, so the lossy conversion loses nothing.
#[verifier::external_body]
pub(crate) fn file_stem(path: &str) -> (r: Option<String>)
    ensures
        r.deep_view() == path_file_stem(path@),
{
    match std::path::Path::new(path).file_stem() {
        Some(stem) => Some(stem.to_string_lossy().into_owned()),
        None => None,
    }
}

/// Calls `std::path::Path::extension` on `path`. The claim is only that the
/// result is the one named `path_extension` for this text.
#[verifier::external_body]
pub(crate) fn extension(path: &str) -> (r: Option<String>)
    ensures
        r.deep_view() == path_extension(path@),
{
    match std::path::Path::new(path).extension() {
        Some(ext) => Some(ext.to_string_lossy().into_owned()),
        None => None,
    }
}

/// Calls `std::path::Path::file_name` on `path`. The claim is only that the
/// result is the one named `path_file_name` for this text.
#[verifier::external_body]
pub(crate) fn file_name(path: &str) -> (r: Option<String>)
    ensures
        r.deep_view() == path_file_name(path@),
{
    match std::path::Path::new(path).file_name() {
        Some(name) => Some(name.to_string_lossy().into_owned()),
        None => None,
    }
}

/// Calls `str::to_lowercase` on `s`. The claim is only that the result is
/// the one named `lowercase` for this text; the Unicode case mapping itself
/// is left unstated.
#[verifier::external_body]
pub(crate) fn to_lowercase(s: &str) -> (r: String)
    ensures
        r@ == lowercase(s@),
{
    s.to_lowercase()
}

} // verus!
