//! A project: a directory and the session name that stands for it.

use crate::text::{chars_of, replace_char, replaced, string_of};
use std::path::PathBuf;
use vstd::prelude::*;

verus! {

/// A name as sessions take it: every `.` replaced by `_`, all else kept.
pub open spec fn normalized(name: Seq<char>) -> Seq<char> {
    replaced(name, '.', '_')
}

/// A directory on disk and the name of its session.
#[derive(Debug, PartialEq, Eq)]
pub struct Project {
    pub path: PathBuf,
    pub name: String,
}

impl Clone for Project {
    fn clone(&self) -> (r: Self)
        ensures
            r == *self,
    {
        Project { path: self.path.clone(), name: self.name.clone() }
    }
}

impl Project {
    /// A project is well formed when it has a name.
    pub open spec fn wf(&self) -> bool {
        self.name@.len() > 0
    }

    /// Whether the name is one that `new` can have produced.
    pub open spec fn name_is_normal(&self) -> bool {
        forall|i: int| 0 <= i < self.name@.len() ==> self.name@[i] != '.'
    }

    /// The project at `path`, named by `name` with every `.` replaced by `_`.
    pub fn new(path: PathBuf, name: String) -> (r: Self)
        ensures
            r.path == path,
            r.name@ == normalized(name@),
            r.name_is_normal(),
            r.wf() <==> name@.len() > 0,
    {
        let chars = chars_of(name.as_str());
        let clean = replace_char(&chars, '.', '_');
        Project { path, name: string_of(&clean) }
    }

    /// A copy of the name.
    pub fn get_name(&self) -> (r: String)
        ensures
            r@ == self.name@,
    {
        self.name.clone()
    }

    /// A copy of the path.
    pub fn get_path(&self) -> (r: PathBuf)
        ensures
            r == self.path,
    {
        self.path.clone()
    }
}

/// Normalizing keeps the length, leaves no `.`, and changes nothing but `.`.
pub proof fn lemma_normalized_shape(name: Seq<char>)
    ensures
        normalized(name).len() == name.len(),
        forall|i: int| 0 <= i < name.len() ==> normalized(name)[i] != '.',
        forall|i: int| 0 <= i < name.len() && name[i] != '.' ==> normalized(name)[i] == name[i],
        forall|i: int| 0 <= i < name.len() && name[i] == '.' ==> normalized(name)[i] == '_',
{
}

/// Normalizing a second time changes nothing: the replacement is applied once.
pub proof fn lemma_normalized_once(name: Seq<char>)
    ensures
        normalized(normalized(name)) == normalized(name),
{
    assert(normalized(normalized(name)) =~= normalized(name));
}

} // verus!
