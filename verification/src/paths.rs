//! File-system paths, held as text.
//!
//! Paths are combined and taken apart by `std::path`, so that separators and
//! roots are handled as the platform that the library is built for demands.
//! What `std::path` returns is named here and never spelled out: it depends
//! on the text of the paths alone.

use vstd::prelude::*;

verus! {

/// The path that `std::path::Path::join` makes of `base` and `component`.
pub uninterp spec fn joined_path(base: Seq<char>, component: Seq<char>) -> Seq<char>;

/// The parent that `std::path::Path::parent` finds for `path`, if it has one.
pub uninterp spec fn parent_path(path: Seq<char>) -> Option<Seq<char>>;

/// The text that the `Debug` formatting of `std::path::Path` gives for `path`:
/// the path between double quotes, with special characters escaped.
pub uninterp spec fn quoted_path(path: Seq<char>) -> Seq<char>;

/// `base` extended by two components.
pub open spec fn joined2(base: Seq<char>, a: Seq<char>, b: Seq<char>) -> Seq<char> {
    joined_path(joined_path(base, a), b)
}

/// `base` extended by three components.
pub open spec fn joined3(base: Seq<char>, a: Seq<char>, b: Seq<char>, c: Seq<char>) -> Seq<
    char,
> {
    joined_path(joined2(base, a, b), c)
}

/// The ancestor three levels above `path`, if the path is that deep.
pub open spec fn great_grandparent(path: Seq<char>) -> Option<Seq<char>> {
    match parent_path(path) {
        Some(first) => match parent_path(first) {
            Some(second) => parent_path(second),
            None => None,
        },
        None => None,
    }
}

/// Calls `std::path::Path::join`. Both arguments are valid UTF-8, so the
/// joined path is too and converts to a string without loss.
#[verifier::external_body]
pub(crate) fn join(base: &str, component: &str) -> (out: String)
    ensures
        out@ == joined_path(base@, component@),
{
    std::path::Path::new(base).join(component).to_string_lossy().into_owned()
}

/// Calls `std::path::Path::parent`. The parent of a UTF-8 path is a prefix of
/// it and converts to a string without loss.
#[verifier::external_body]
pub(crate) fn parent(path: &str) -> (out: Option<String>)
    ensures
        out.deep_view() == parent_path(path@),
{
    std::path::Path::new(path).parent().map(|p| p.to_string_lossy().into_owned())
}

/// Formats a path with `{:?}`, as `std::path::Path` prints itself for
/// diagnostics.
#[verifier::external_body]
pub(crate) fn quoted(path: &str) -> (out: String)
    ensures
        out@ == quoted_path(path@),
{
    format!("{:?}", std::path::Path::new(path))
}

/// `base` extended by two components.
pub(crate) fn join2(base: &str, a: &str, b: &str) -> (out: String)
    ensures
        out@ == joined2(base@, a@, b@),
{
    let first = join(base, a);
    join(first.as_str(), b)
}

/// `base` extended by three components.
pub(crate) fn join3(base: &str, a: &str, b: &str, c: &str) -> (out: String)
    ensures
        out@ == joined3(base@, a@, b@, c@),
{
    let second = join2(base, a, b);
    join(second.as_str(), c)
}

/// The ancestor three levels above `path`.
pub(crate) fn great_grandparent_of(path: &str) -> (out: Option<String>)
    ensures
        out.deep_view() == great_grandparent(path@),
{
    match parent(path) {
        Some(first) => match parent(first.as_str()) {
            Some(second) => parent(second.as_str()),
            None => None,
        },
        None => None,
    }
}

} // verus!
