//! The two questions the store asks about a path, answered by the standard
//! library's path handling for the platform the crate is built for.
//!
//! Paths are held as text. Nothing here is proved: the contracts say that
//! each function returns what the standard library computes, under a name
//! that the contracts of the store use.

use vstd::prelude::*;

verus! {

/// What `std::path::Path::parent` gives for `path`: the path without its
/// last component, and `None` for a root and for the empty path.
pub uninterp spec fn path_parent(path: Seq<char>) -> Option<Seq<char>>;

/// What `std::path::Path::with_extension` gives for `path` and
/// `extension`.
pub uninterp spec fn path_with_extension(path: Seq<char>, extension: Seq<char>) -> Seq<char>;

/// Calls `std::path::Path::parent`. The contract says that the result is
/// [`path_parent`] of the argument, and nothing about what that is. A
/// parent of a path given as text is itself text, so the conversion back
/// loses nothing.
#[verifier::external_body]
pub(crate) fn parent(path: &str) -> (dir: Option<String>)
    ensures
        dir matches Some(d) ==> path_parent(path@) == Some(d@),
        dir is None ==> path_parent(path@) is None,
{
    match std::path::Path::new(path).parent() {
        Some(dir) => Some(dir.to_string_lossy().into_owned()),
        None => None,
    }
}

/// Calls `std::path::Path::with_extension`. The contract says that the
/// result is [`path_with_extension`] of the arguments, and nothing about
/// what that is. The standard library panics on an extension that holds a
/// path separator, which `requires` leaves out for both separators.
#[verifier::external_body]
pub(crate) fn with_extension(path: &str, extension: &str) -> (changed: String)
    requires
        !extension@.contains('/'),
        !extension@.contains('\\'),
    ensures
        changed@ == path_with_extension(path@, extension@),
{
    std::path::Path::new(path).with_extension(extension).to_string_lossy().into_owned()
}

} // verus!
