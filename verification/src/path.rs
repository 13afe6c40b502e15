//! File-system paths as the editor sees them: a key to find a document by,
//! and a final component to show in its tab.

use vstd::prelude::*;

use std::path::PathBuf;

verus! {

#[verifier::external_type_specification]
#[verifier::external_body]
pub struct ExPathBuf(PathBuf);

/// The key under which a path is found again: two paths compare equal with
/// `==` exactly if their keys are the same.
pub uninterp spec fn path_key(path: PathBuf) -> Seq<u8>;

/// The final component of a path as text, where the path has one and it is
/// valid Unicode.
pub uninterp spec fn path_file_name(path: PathBuf) -> Option<Seq<char>>;

/// `PathBuf`'s `==`.
///
/// Trusted: the comparison is an equivalence relation that looks at the two
/// paths alone (`PathBuf` is `Eq`), which is what comparing by `path_key`
/// says. Nothing is claimed of which spellings of a path compare equal.
#[verifier::external_body]
pub(crate) fn same_path(a: &PathBuf, b: &PathBuf) -> (same: bool)
    ensures
        same == (path_key(*a) == path_key(*b)),
{
    a == b
}

/// `PathBuf::clone`.
///
/// Trusted: the copy is the same path as the one it was made from.
#[verifier::external_body]
pub(crate) fn clone_path(path: &PathBuf) -> (copy: PathBuf)
    ensures
        copy == *path,
{
    path.clone()
}

/// `Path::file_name`, read as text with `OsStr::to_str`.
///
/// Trusted: the result rests on the path alone. It is `path_file_name`,
/// which is `None` where the path has no final component or that component
/// is not valid Unicode.
#[verifier::external_body]
pub(crate) fn file_name_of(path: &PathBuf) -> (name: Option<String>)
    ensures
        name is Some <==> path_file_name(*path) is Some,
        name is Some ==> name->0@ == path_file_name(*path)->0,
{
    Some(path.file_name()?.to_str()?.to_string())
}

/// The label of a document stored at `path`: the final component of the
/// path, or `"Unnamed"` where it has none that is text.
pub open spec fn display_name_for(path: PathBuf) -> Seq<char> {
    match path_file_name(path) {
        Some(name) => name,
        None => "Unnamed"@,
    }
}

/// The label of a document stored at `path`.
pub fn display_name_of(path: &PathBuf) -> (name: String)
    ensures
        name@ == display_name_for(*path),
{
    match file_name_of(path) {
        Some(name) => name,
        None => "Unnamed".to_owned(),
    }
}

} // verus!
