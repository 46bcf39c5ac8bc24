//! File paths, held as text, and the operations of `std::path` on them.
use vstd::prelude::*;

verus! {

/// What `std::path::Path::join` gives for `base` joined with `path`.
pub uninterp spec fn spec_path_join(base: Seq<char>, path: Seq<char>) -> Seq<char>;

/// What `std::path::Path::parent` gives for `path`.
pub uninterp spec fn spec_path_parent(path: Seq<char>) -> Option<Seq<char>>;

/// What `std::path::Path::file_name` gives for `path`.
pub uninterp spec fn spec_path_file_name(path: Seq<char>) -> Option<Seq<char>>;

/// Calls `std::path::Path::join`; the text of the joined path is claimed to
/// be `spec_path_join` of the two texts. Both are text to begin with, so the
/// joined path is text too and its conversion loses nothing.
#[verifier::external_body]
pub(crate) fn path_join(base: &str, path: &str) -> (joined: String)
    ensures
        joined@ == spec_path_join(base@, path@),
{
    std::path::Path::new(base).join(path).to_string_lossy().into_owned()
}

/// Calls `std::path::Path::parent`; the result is claimed to be
/// `spec_path_parent` of the text, and, as its documentation says, no parent
/// for the empty path.
#[verifier::external_body]
pub(crate) fn path_parent(path: &str) -> (parent: Option<String>)
    ensures
        parent matches Some(p) ==> spec_path_parent(path@) == Some(p@),
        parent is None ==> spec_path_parent(path@) is None,
        path@.len() == 0 ==> parent is None,
{
    std::path::Path::new(path).parent().map(|p| p.to_string_lossy().into_owned())
}

/// Calls `std::path::Path::file_name`; the result is claimed to be
/// `spec_path_file_name` of the text.
#[verifier::external_body]
pub(crate) fn path_file_name(path: &str) -> (name: Option<String>)
    ensures
        name matches Some(n) ==> spec_path_file_name(path@) == Some(n@),
        name is None ==> spec_path_file_name(path@) is None,
{
    std::path::Path::new(path).file_name().map(|n| n.to_string_lossy().into_owned())
}

/// What `std::path::Path::strip_prefix` gives for `path` without `base`.
pub uninterp spec fn spec_path_strip_prefix(path: Seq<char>, base: Seq<char>) -> Option<Seq<char>>;

/// Calls `std::path::Path::strip_prefix`; the result is claimed to be
/// `spec_path_strip_prefix` of the two texts, `None` standing for its error.
#[verifier::external_body]
pub(crate) fn path_strip_prefix(path: &str, base: &str) -> (rest: Option<String>)
    ensures
        rest matches Some(r) ==> spec_path_strip_prefix(path@, base@) == Some(r@),
        rest is None ==> spec_path_strip_prefix(path@, base@) is None,
{
    std::path::Path::new(path).strip_prefix(base).ok().map(|r| r.to_string_lossy().into_owned())
}

} // verus!
