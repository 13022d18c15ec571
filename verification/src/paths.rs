//! Paths of the file system. A path is opaque here: what the library needs
//! of one, the standard library computes, and each such result has a name
//! that contracts can speak of.

use std::path::PathBuf;
use vstd::prelude::*;

verus! {

/// `std::path::PathBuf`, as a type whose values are carried and compared
/// but never looked into.
#[verifier::external_type_specification]
#[verifier::external_body]
pub struct ExPathBuf(PathBuf);

/// `PathBuf::clone`: the copy is the same path.
pub assume_specification[ <PathBuf as Clone>::clone ](path: &PathBuf) -> (r: PathBuf)
    ensures
        r == *path,
;

/// What `Path::file_name` gives for a path, as text.
pub uninterp spec fn file_name_text(path: PathBuf) -> Option<Seq<char>>;

/// The last component of a path as text, where the path has one. A
/// component is never empty.
pub open spec fn final_component(path: PathBuf) -> Option<Seq<char>> {
    match file_name_text(path) {
        Some(name) => if name.len() > 0 { Some(name) } else { None },
        None => None,
    }
}

/// The whole path as text, where it is valid Unicode.
pub uninterp spec fn path_text(path: PathBuf) -> Option<Seq<char>>;

/// The path that a text names.
pub uninterp spec fn path_of(text: Seq<char>) -> PathBuf;

/// The path `base` with the component `name` added.
pub uninterp spec fn path_join(base: PathBuf, name: Seq<char>) -> PathBuf;

/// `Path::file_name`, with the component turned into a `String` as
/// `OsStr::to_string_lossy` does: the last component of the path, or none
/// where it has none, as the root, the empty path and a path that ends in
/// `..` have none. A component is the name of a file or of a directory, and
/// not empty: repeated separators and a separator at the end are passed
/// over when a path is taken apart. The result depends on the path alone.
#[verifier::external_body]
pub(crate) fn file_name_of(path: &PathBuf) -> (r: Option<String>)
    ensures
        r matches Some(s) ==> file_name_text(*path) == Some(s@) && s@.len() > 0,
        r is None ==> file_name_text(*path) is None,
{
    match path.file_name() {
        Some(name) => Some(name.to_string_lossy().into_owned()),
        None => None,
    }
}

/// `Path::to_str`: the path as text, or none where it is not valid Unicode.
/// The result depends on the path alone.
#[verifier::external_body]
pub(crate) fn to_str_of(path: &PathBuf) -> (r: Option<&str>)
    ensures
        r matches Some(s) ==> path_text(*path) == Some(s@),
        r is None ==> path_text(*path) is None,
{
    path.to_str()
}

/// `PathBuf::from` a `String`: the path that the text names, which as text
/// is that text again. The result depends on the text alone.
#[verifier::external_body]
pub(crate) fn path_from(text: String) -> (r: PathBuf)
    ensures
        r == path_of(text@),
        path_text(r) == Some(text@),
{
    PathBuf::from(text)
}

/// `Path::join`: a new path, `base` with `name` added to it as
/// `PathBuf::push` adds it. The result depends on the two alone.
#[verifier::external_body]
pub(crate) fn joined_path(base: &PathBuf, name: &str) -> (r: PathBuf)
    ensures
        r == path_join(*base, name@),
{
    base.join(name)
}

/// The text of a path as commands take it: empty where the path is not
/// valid Unicode.
pub open spec fn text_or_empty(path: PathBuf) -> Seq<char> {
    match path_text(path) {
        Some(t) => t,
        None => Seq::empty(),
    }
}

/// The text of a path as commands take it.
pub fn path_argument(path: &PathBuf) -> (r: String)
    ensures
        r@ == text_or_empty(*path),
{
    match to_str_of(path) {
        Some(s) => s.to_owned(),
        None => String::new(),
    }
}

} // verus!
