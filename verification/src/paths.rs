//! Path arithmetic, left to the standard library.

use std::path::Path;
use vstd::prelude::*;

verus! {

/// What `std::path::Path::with_file_name` gives for a path and a file name:
/// the path like `path` whose final component is `file_name`. How a path
/// splits into components is the matter of the platform that the library is
/// built for.
pub uninterp spec fn with_file_name_of(path: Seq<char>, file_name: Seq<char>) -> Seq<char>;

/// What `std::path::Path::file_stem` gives for a path: its final component
/// without the extension, `None` where the path has no final component. How a
/// path splits into components is the matter of the platform that the library
/// is built for.
pub uninterp spec fn file_stem_of(path: Seq<char>) -> Option<Seq<char>>;

/// `std::path::Path::with_file_name`. The contract only names the result.
#[verifier::external_body]
pub(crate) fn sibling_path(path: &str, file_name: &str) -> (sibling: String)
    ensures
        sibling@ == with_file_name_of(path@, file_name@),
{
    Path::new(path).with_file_name(file_name).to_string_lossy().into_owned()
}

/// `std::path::Path::file_stem`. The contract only names the result.
#[verifier::external_body]
pub(crate) fn file_stem(path: &str) -> (stem: Option<String>)
    ensures
        stem.deep_view() == file_stem_of(path@),
{
    Path::new(path).file_stem().map(|stem| stem.to_string_lossy().into_owned())
}

} // verus!
