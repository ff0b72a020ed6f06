//! Paths are carried as UTF-8 strings; joining them is left to `std::path`.

use vstd::prelude::*;

verus! {

/// Names what `std::path::Path::join` gives when the path `dir` is extended by
/// `name`, both read as UTF-8 paths, under the path rules of the platform the
/// crate is built for (its separator and its handling of roots and prefixes).
pub uninterp spec fn joined_path(dir: Seq<char>, name: Seq<char>) -> Seq<char>;

/// Trusted: calls `std::path::Path::join` on `dir` and `name` and returns the
/// result as a string. The contract claims only that the result is the one that
/// `joined_path` names for these two strings. The conversion back to a string is
/// lossless here, as both inputs are UTF-8.
#[verifier::external_body]
pub(crate) fn path_join(dir: &str, name: &str) -> (r: String)
    ensures
        r@ == joined_path(dir@, name@),
{
    std::path::Path::new(dir).join(name).to_string_lossy().into_owned()
}

} // verus!
