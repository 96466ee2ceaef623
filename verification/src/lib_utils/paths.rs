//! Paths as text, and the questions that only the standard library and the
//! filesystem can answer about them.
//!
//! A path is held as a `String`. What `std::path` computes from a path's text
//! alone is given a name here, so that contracts can speak of it; the names
//! stand for what `std::path` returns on the platform the crate is built for.
//! What depends on the filesystem has no name: callers are verified for
//! every answer.
use vstd::prelude::*;

verus! {

/// The extension that `std::path::Path::extension` finds in a path.
pub uninterp spec fn extension_of(path: Seq<char>) -> Option<Seq<char>>;

/// The file name without its extension that `std::path::Path::file_stem` finds
/// in a path.
pub uninterp spec fn file_stem_of(path: Seq<char>) -> Option<Seq<char>>;

/// The path that `std::path::Path::with_file_name` makes of a path and a new
/// file name.
pub uninterp spec fn with_file_name_of(path: Seq<char>, name: Seq<char>) -> Seq<char>;

/// The path that `std::path::Path::join` makes of a directory and a name.
pub uninterp spec fn joined_path(dir: Seq<char>, name: Seq<char>) -> Seq<char>;

/// The texts of an optional `String`.
pub open spec fn opt_string_view(s: Option<String>) -> Option<Seq<char>> {
    match s {
        Some(text) => Some(text@),
        None => None,
    }
}

/// Calls `std::path::Path::exists`: whether the path names something on the
/// filesystem right now. Nothing is claimed of the answer.
#[verifier::external_body]
pub(crate) fn path_exists(path: &str) -> bool {
    std::path::Path::new(path).exists()
}

/// Calls `std::path::Path::is_file`: whether the path names a regular file on
/// the filesystem right now. Nothing is claimed of the answer.
#[verifier::external_body]
pub(crate) fn path_is_file(path: &str) -> bool {
    std::path::Path::new(path).is_file()
}

/// Calls `std::path::Path::is_dir`: whether the path names a directory on the
/// filesystem right now. Nothing is claimed of the answer.
#[verifier::external_body]
pub(crate) fn path_is_dir(path: &str) -> bool {
    std::path::Path::new(path).is_dir()
}

/// Calls `std::path::Path::extension`. The result is claimed to be a function
/// of the path's text, named [`extension_of`].
#[verifier::external_body]
pub(crate) fn path_extension(path: &str) -> (ext: Option<String>)
    ensures
        opt_string_view(ext) == extension_of(path@),
{
    std::path::Path::new(path).extension().map(|e| e.to_string_lossy().into_owned())
}

/// Calls `std::path::Path::file_stem`. The result is claimed to be a function
/// of the path's text, named [`file_stem_of`].
#[verifier::external_body]
pub(crate) fn path_file_stem(path: &str) -> (stem: Option<String>)
    ensures
        opt_string_view(stem) == file_stem_of(path@),
{
    std::path::Path::new(path).file_stem().map(|s| s.to_string_lossy().into_owned())
}

/// Calls `std::path::Path::with_file_name`. The result is claimed to be a
/// function of the two texts, named [`with_file_name_of`].
#[verifier::external_body]
pub(crate) fn path_with_file_name(path: &str, name: &str) -> (out: String)
    ensures
        out@ == with_file_name_of(path@, name@),
{
    std::path::Path::new(path).with_file_name(name).to_string_lossy().into_owned()
}

/// Calls `std::path::Path::join`. The result is claimed to be a function of
/// the two texts, named [`joined_path`].
#[verifier::external_body]
pub(crate) fn path_join(dir: &str, name: &str) -> (out: String)
    ensures
        out@ == joined_path(dir@, name@),
{
    std::path::Path::new(dir).join(name).to_string_lossy().into_owned()
}

} // verus!
