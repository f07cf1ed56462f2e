//! Paths as std's `Path` reads them. Each result is named rather than described: the
//! library relies only on std computing it from the path text alone.
use vstd::prelude::*;

use crate::text;

verus! {

/// What `Path::parent` returns for a path, as text.
pub uninterp spec fn path_parent(path: Seq<char>) -> Option<Seq<char>>;

/// What `Path::file_name` returns for a path, as text.
pub uninterp spec fn path_file_name(path: Seq<char>) -> Option<Seq<char>>;

/// What `Path::join` returns for a base and a relative name, as text.
pub uninterp spec fn path_join(base: Seq<char>, name: Seq<char>) -> Seq<char>;

/// Calls `std::path::Path::parent` on `path`. The contract claims only that the result
/// is the one `path_parent` names for this path.
#[verifier::external_body]
pub(crate) fn std_path_parent(path: &str) -> (r: Option<String>)
    ensures
        text::opt_view(r) == path_parent(path@),
{
    match std::path::Path::new(path).parent() {
        Some(parent) => Some(parent.to_string_lossy().into_owned()),
        None => None,
    }
}

/// Calls `std::path::Path::file_name` on `path`. The contract claims only that the result
/// is the one `path_file_name` names for this path.
#[verifier::external_body]
pub(crate) fn std_path_file_name(path: &str) -> (r: Option<String>)
    ensures
        text::opt_view(r) == path_file_name(path@),
{
    match std::path::Path::new(path).file_name() {
        Some(name) => Some(name.to_string_lossy().into_owned()),
        None => None,
    }
}

/// Calls `std::path::Path::join` on `base` and `name`. The contract claims only that the
/// result is the one `path_join` names for these arguments.
#[verifier::external_body]
pub(crate) fn std_path_join(base: &str, name: &str) -> (r: String)
    ensures
        r@ == path_join(base@, name@),
{
    std::path::Path::new(base).join(name).to_string_lossy().into_owned()
}

/// Whether `Path`'s `==` holds between two paths, which compares them component by
/// component (so `a/./x` and `a//x/` are both `a/x`).
pub uninterp spec fn paths_equal(a: Seq<char>, b: Seq<char>) -> bool;

/// Calls `==` on `std::path::Path` for `a` and `b`. The contract claims that the result is
/// the one `paths_equal` names for them, and, as `Path`'s `Eq` is reflexive, that equal
/// texts are equal paths.
#[verifier::external_body]
pub(crate) fn std_paths_equal(a: &str, b: &str) -> (r: bool)
    ensures
        r == paths_equal(a@, b@),
        a@ == b@ ==> r,
{
    std::path::Path::new(a) == std::path::Path::new(b)
}

/// The order `Vec::<PathBuf>::sort` puts paths in, as text.
pub uninterp spec fn paths_sorted(paths: Seq<Seq<char>>) -> Seq<Seq<char>>;

/// Sorts paths with `slice::sort` on `PathBuf`, which compares paths component by
/// component. The contract claims that the result is a permutation of `paths` and the
/// one `paths_sorted` names for them; the order itself is not described.
#[verifier::external_body]
pub(crate) fn std_sort_paths(paths: Vec<String>) -> (r: Vec<String>)
    ensures
        r@.map_values(|p: String| p@) == paths_sorted(paths@.map_values(|p: String| p@)),
        r@.map_values(|p: String| p@).to_multiset() == paths@.map_values(|p: String| p@).to_multiset(),
{
    let mut sorted: Vec<std::path::PathBuf> = Vec::new();
    for path in paths {
        sorted.push(std::path::PathBuf::from(path));
    }
    sorted.sort();
    let mut r: Vec<String> = Vec::new();
    for path in sorted {
        r.push(path.to_string_lossy().into_owned());
    }
    r
}

} // verus!
