//! File-system paths, as the platform reads them.
//!
//! Whether a path is rooted, where one path ends with or starts with another,
//! and how two paths join is decided by the standard library, component by
//! component. The results are named here and stated of nothing else.

use vstd::prelude::*;

verus! {

/// Whether the platform reads `path` as starting at a root.
pub uninterp spec fn rooted_path(path: Seq<char>) -> bool;

/// `path` behind `base`, as the platform joins them.
pub uninterp spec fn joined_path(base: Seq<char>, path: Seq<char>) -> Seq<char>;

/// What is left of `path` once the components of `base` are taken from its
/// front; none where `path` does not start with them.
pub uninterp spec fn stripped_path(path: Seq<char>, base: Seq<char>) -> Option<Seq<char>>;

/// Whether the last components of `path` are those of `child`.
pub uninterp spec fn path_suffix(path: Seq<char>, child: Seq<char>) -> bool;

/// Asks `std::path::Path::has_root` of `path`. Nothing is claimed of the
/// answer but that it is the same for the same text.
#[verifier::external_body]
pub(crate) fn has_root(path: &str) -> (r: bool)
    ensures
        r == rooted_path(path@),
{
    std::path::Path::new(path).has_root()
}

/// Joins `path` to `base` with `std::path::Path::join`. Both paths are
/// text, and so is what joins them. Nothing is claimed of the result but that
/// it is the same for the same texts.
#[verifier::external_body]
pub(crate) fn join(base: &str, path: &str) -> (r: String)
    ensures
        r@ == joined_path(base@, path@),
{
    std::path::Path::new(base).join(path).to_string_lossy().into_owned()
}

/// Takes `base` from the front of `path` with
/// `std::path::Path::strip_prefix`; where that fails, because `path` does not
/// start with `base`, nothing is handed out. Nothing is claimed of the rest
/// but that it is the same for the same texts.
#[verifier::external_body]
pub(crate) fn strip_prefix(path: &str, base: &str) -> (r: Option<String>)
    ensures
        match r {
            Some(rest) => stripped_path(path@, base@) == Some(rest@),
            None => stripped_path(path@, base@).is_none(),
        },
{
    match std::path::Path::new(path).strip_prefix(base) {
        Ok(rest) => Some(rest.to_string_lossy().into_owned()),
        Err(_) => None,
    }
}

/// Asks `std::path::Path::ends_with` whether `path` ends with `child`.
/// Nothing is claimed of the answer but that it is the same for the same
/// texts.
#[verifier::external_body]
pub(crate) fn ends_with(path: &str, child: &str) -> (r: bool)
    ensures
        r == path_suffix(path@, child@),
{
    std::path::Path::new(path).ends_with(child)
}

} // verus!
