//! From what the user gave to a project: by the path and name given, or by
//! a choice among the directories of the projects root.

use crate::fzf::FzfCmd;
use crate::paths::{file_name_of, final_component};
use crate::project::{normalized, Project};
use crate::text::{chars_of, split, split_on, string_of, trim_end, trim_end_of, views};
use std::path::PathBuf;
use vstd::prelude::*;

verus! {

/// Why no project came of what the user gave.
#[derive(Copy, Clone, Debug, PartialEq, Eq, Structural)]
pub enum ResolveError {
    /// The path has no last component to take a name from.
    NoFinalComponent,
    /// The name would be empty.
    EmptyName,
    /// The choice names none of the projects: the user picked nothing.
    NoProjectSelected,
}

/// What came of what the user gave.
#[derive(Debug, PartialEq, Eq)]
pub enum Resolution {
    /// The project is known.
    Resolved(Project),
    /// No path was given: the user is to choose among the directories of `root`.
    MustPick { root: PathBuf },
}

/// The session name that stands for a raw name: the raw name normalized;
/// none for an empty one.
pub open spec fn name_from(raw: Seq<char>) -> Result<Seq<char>, ResolveError> {
    if raw.len() == 0 {
        Err(ResolveError::EmptyName)
    } else {
        Ok(normalized(raw))
    }
}

/// The session name of the project at `path`: the given name, or else the
/// last component of the path, with every `.` replaced by `_`. There is
/// none for a given name that is empty, nor for a path without a last
/// component where no name is given.
pub open spec fn session_name(path: PathBuf, name: Option<Seq<char>>) -> Result<
    Seq<char>,
    ResolveError,
> {
    match name {
        Some(given) => name_from(given),
        None => match final_component(path) {
            Some(component) => Ok(normalized(component)),
            None => Err(ResolveError::NoFinalComponent),
        },
    }
}

/// The view of an optional string.
pub open spec fn text_of(name: Option<String>) -> Option<Seq<char>> {
    match name {
        Some(s) => Some(s@),
        None => None,
    }
}

/// Whether `r` is what resolving `project_dir` and `name` under the root
/// `projects_dir` gives.
pub open spec fn resolves_to(
    projects_dir: PathBuf,
    project_dir: Option<PathBuf>,
    name: Option<Seq<char>>,
    r: Result<Resolution, ResolveError>,
) -> bool {
    match project_dir {
        None => r matches Ok(Resolution::MustPick { root }) && root == projects_dir,
        Some(path) => match session_name(path, name) {
            Ok(text) => r matches Ok(Resolution::Resolved(project)) && project.path == path
                && project.name@ == text,
            Err(e) => r matches Err(error) && error == e,
        },
    }
}

/// Whether two outcomes of resolving are the same: the same error, the same
/// root to pick under, or projects of the same path and name.
pub open spec fn same_resolution(
    a: Result<Resolution, ResolveError>,
    b: Result<Resolution, ResolveError>,
) -> bool {
    match (a, b) {
        (Err(x), Err(y)) => x == y,
        (Ok(Resolution::MustPick { root: x }), Ok(Resolution::MustPick { root: y })) => x == y,
        (Ok(Resolution::Resolved(p)), Ok(Resolution::Resolved(q))) => p.path == q.path && p.name@
            == q.name@,
        _ => false,
    }
}

fn project_named(path: PathBuf, raw: String) -> (r: Result<Project, ResolveError>)
    ensures
        match name_from(raw@) {
            Ok(text) => r matches Ok(project) && project.path == path && project.name@ == text
                && project.wf(),
            Err(e) => r matches Err(error) && error == e,
        },
{
    if raw.as_str().is_empty() {
        Err(ResolveError::EmptyName)
    } else {
        Ok(Project::new(path, raw))
    }
}

fn project_at(path: PathBuf, name: Option<String>) -> (r: Result<Project, ResolveError>)
    ensures
        match session_name(path, text_of(name)) {
            Ok(text) => r matches Ok(project) && project.path == path && project.name@ == text
                && project.wf(),
            Err(e) => r matches Err(error) && error == e,
        },
{
    match name {
        Some(given) => project_named(path, given),
        None => match file_name_of(&path) {
            Some(component) => Ok(Project::new(path, component)),
            None => Err(ResolveError::NoFinalComponent),
        },
    }
}

/// Resolves what the user gave. With a path, the project is the one at that
/// path, named by `name` or else by the last component of the path, every
/// `.` replaced by `_`; the path is taken as given, and the attempt fails
/// where the name would be empty or the path has no last component. Without
/// a path, the user is to choose under `projects_dir`.
pub fn get_project(projects_dir: PathBuf, project_dir: &Option<PathBuf>, name: Option<String>) -> (r:
    Result<Resolution, ResolveError>)
    ensures
        resolves_to(projects_dir, *project_dir, text_of(name), r),
        r matches Ok(Resolution::Resolved(project)) ==> project.wf() && project.name_is_normal(),
{
    match project_dir {
        None => Ok(Resolution::MustPick { root: projects_dir }),
        Some(selected_project) => {
            match project_at(selected_project.clone(), name) {
                Ok(project) => Ok(Resolution::Resolved(project)),
                Err(e) => Err(e),
            }
        },
    }
}

/// Resolving is a function of what is given: two outcomes for the same
/// root, path and name are the same outcome.
pub proof fn lemma_resolving_twice_agrees(
    projects_dir: PathBuf,
    project_dir: Option<PathBuf>,
    name: Option<Seq<char>>,
    first: Result<Resolution, ResolveError>,
    second: Result<Resolution, ResolveError>,
)
    requires
        resolves_to(projects_dir, project_dir, name, first),
        resolves_to(projects_dir, project_dir, name, second),
    ensures
        same_resolution(first, second),
{
}

/// With a path and no name, the project is the one at that path, named by
/// the last component of the path with every `.` in it replaced by `_`: the
/// name is as long as the component, holds no `.`, and has every other
/// character of the component in its place.
pub proof fn lemma_name_derives_from_path(
    projects_dir: PathBuf,
    path: PathBuf,
    r: Result<Resolution, ResolveError>,
)
    requires
        resolves_to(projects_dir, Some(path), None, r),
        final_component(path) is Some,
    ensures
        r matches Ok(Resolution::Resolved(project)) && ({
            let component = final_component(path)->0;
            &&& project.path == path
            &&& project.name@ == normalized(component)
            &&& project.name@.len() == component.len() > 0
            &&& forall|i: int|
                0 <= i < component.len() ==> #[trigger] project.name@[i] == (if component[i]
                    == '.' {
                    '_'
                } else {
                    component[i]
                })
        }),
{
}

/// With a path and no name, resolving fails exactly where the path has no
/// last component.
pub proof fn lemma_path_without_component_fails(
    projects_dir: PathBuf,
    path: PathBuf,
    r: Result<Resolution, ResolveError>,
)
    requires
        resolves_to(projects_dir, Some(path), None, r),
    ensures
        r is Err <==> final_component(path) is None,
        r is Err ==> r == Err::<Resolution, ResolveError>(ResolveError::NoFinalComponent),
{
}

/// The projects of the directories `dirs`, one for each and in their order,
/// each named by the last component of its path with every `.` replaced by
/// `_`. The list fails where one of the directories has no last component.
pub fn get_projects(dirs: &Vec<PathBuf>) -> (r: Result<Vec<Project>, ResolveError>)
    ensures
        match r {
            Ok(projects) => {
                &&& projects@.len() == dirs@.len()
                &&& forall|i: int|
                    0 <= i < dirs@.len() ==> {
                        &&& (#[trigger] projects@[i]).path == dirs@[i]
                        &&& final_component(dirs@[i]) is Some
                        &&& projects@[i].name@ == normalized(final_component(dirs@[i])->0)
                        &&& projects@[i].wf()
                    }
            },
            Err(e) => e == ResolveError::NoFinalComponent && exists|i: int|
                0 <= i < dirs@.len() && (#[trigger] final_component(dirs@[i])) is None,
        },
{
    let mut projects: Vec<Project> = Vec::new();
    let mut i: usize = 0;
    while i < dirs.len()
        invariant
            i <= dirs@.len(),
            projects@.len() == i,
            forall|j: int|
                0 <= j < i ==> {
                    &&& (#[trigger] projects@[j]).path == dirs@[j]
                    &&& final_component(dirs@[j]) is Some
                    &&& projects@[j].name@ == normalized(final_component(dirs@[j])->0)
                    &&& projects@[j].wf()
                },
        decreases dirs@.len() - i,
    {
        match project_at(dirs[i].clone(), None) {
            Ok(project) => {
                projects.push(project);
            },
            Err(e) => {
                assert(final_component(dirs@[i as int]) is None);
                return Err(e);
            },
        }
        i = i + 1;
    }
    Ok(projects)
}

/// The names of `projects`, in their order: what the user chooses among.
pub fn project_names(projects: &Vec<Project>) -> (r: Vec<String>)
    ensures
        r@.len() == projects@.len(),
        forall|i: int| 0 <= i < projects@.len() ==> (#[trigger] r@[i])@ == projects@[i].name@,
{
    let mut names: Vec<String> = Vec::new();
    let mut i: usize = 0;
    while i < projects.len()
        invariant
            i <= projects@.len(),
            names@.len() == i,
            forall|j: int| 0 <= j < i ==> (#[trigger] names@[j])@ == projects@[j].name@,
        decreases projects@.len() - i,
    {
        names.push(projects[i].get_name());
        i = i + 1;
    }
    names
}

/// The position of the first of `projects` that is named `picked`.
pub open spec fn first_named(projects: Seq<Project>, picked: Seq<char>, at: int) -> bool {
    &&& 0 <= at < projects.len()
    &&& projects[at].name@ == picked
    &&& forall|j: int| 0 <= j < at ==> (#[trigger] projects[j]).name@ != picked
}

/// Looks the user's choice up among `projects`: the first project of that
/// name. A choice that names none of them, the empty one of a user who
/// chose nothing among them, selects no project.
pub fn pick_project(projects: &Vec<Project>, picked: &str) -> (r: Result<Project, ResolveError>)
    ensures
        match r {
            Ok(project) => exists|at: int|
                first_named(projects@, picked@, at) && project == #[trigger] projects@[at],
            Err(e) => e == ResolveError::NoProjectSelected && forall|j: int|
                0 <= j < projects@.len() ==> (#[trigger] projects@[j]).name@ != picked@,
        },
{
    let wanted = picked.to_owned();
    let mut i: usize = 0;
    while i < projects.len()
        invariant
            i <= projects@.len(),
            wanted@ == picked@,
            forall|j: int| 0 <= j < i ==> (#[trigger] projects@[j]).name@ != picked@,
        decreases projects@.len() - i,
    {
        if projects[i].name == wanted {
            assert(first_named(projects@, picked@, i as int));
            return Ok(projects[i].clone());
        }
        i = i + 1;
    }
    Err(ResolveError::NoProjectSelected)
}

/// The sessions that the user picked, as the picker printed them: one per
/// line, white space at the end aside. A picker that printed nothing, or
/// white space only, tells that the user declined: no session is picked.
pub open spec fn picked_sessions(picked: Seq<char>) -> Seq<Seq<char>> {
    if trim_end_of(picked).len() == 0 {
        Seq::empty()
    } else {
        split_on(trim_end_of(picked), '\n')
    }
}

/// Reads the sessions that the user picked off what the picker printed.
/// A user who declined picked none.
pub fn fzf_get_sessions(picked: &str) -> (r: Vec<String>)
    ensures
        views(r@) == picked_sessions(picked@),
        trim_end_of(picked@).len() == 0 ==> r@.len() == 0,
{
    let text = trim_end(&chars_of(picked));
    let mut names: Vec<String> = Vec::new();
    if text.len() == 0 {
        assert(views(names@) =~= Seq::<Seq<char>>::empty());
        return names;
    }
    let lines = split(&text, '\n');
    let mut i: usize = 0;
    while i < lines.len()
        invariant
            i <= lines@.len(),
            names@.len() == i,
            forall|j: int| 0 <= j < i ==> (#[trigger] names@[j])@ == lines@[j]@,
        decreases lines@.len() - i,
    {
        names.push(string_of(&lines[i]));
        i = i + 1;
    }
    assert(views(names@) =~= crate::text::rows(lines@));
    names
}

/// One entry of a directory, as reading the directory gave it.
#[derive(Debug, PartialEq, Eq)]
pub enum Entry {
    /// An entry whose kind is known.
    Found { path: PathBuf, is_dir: bool },
    /// An entry that could not be read, or whose kind could not be told,
    /// with the complaint.
    Failed(String),
}

/// The directories among the entries of a directory, and the complaints
/// about the entries that were passed over.
#[derive(Debug, PartialEq, Eq)]
pub struct Listing {
    pub directories: Vec<PathBuf>,
    pub skipped: Vec<String>,
}

/// The path of an entry that is a directory.
pub open spec fn directory_of() -> spec_fn(Entry) -> Option<PathBuf> {
    |entry: Entry|
        match entry {
            Entry::Found { path, is_dir } => if is_dir { Some(path) } else { None },
            Entry::Failed(_) => None,
        }
}

/// The complaint about an entry that could not be read.
pub open spec fn complaint_of() -> spec_fn(Entry) -> Option<Seq<char>> {
    |entry: Entry|
        match entry {
            Entry::Found { .. } => None,
            Entry::Failed(complaint) => Some(complaint@),
        }
}

/// Picks the directories among the entries of a directory, in the order in
/// which they were read. An entry that could not be read is passed over,
/// and its complaint kept for a warning; it does not fail the listing.
pub fn get_directories(entries: &Vec<Entry>) -> (r: Listing)
    ensures
        r.directories@ == entries@.filter_map(directory_of()),
        views(r.skipped@) == entries@.filter_map(complaint_of()),
{
    let mut directories: Vec<PathBuf> = Vec::new();
    let mut skipped: Vec<String> = Vec::new();
    let mut i: usize = 0;
    assert(entries@.take(0).filter_map(directory_of()) =~= Seq::<PathBuf>::empty());
    assert(entries@.take(0).filter_map(complaint_of()) =~= Seq::<Seq<char>>::empty());
    while i < entries.len()
        invariant
            i <= entries@.len(),
            directories@ == entries@.take(i as int).filter_map(directory_of()),
            views(skipped@) == entries@.take(i as int).filter_map(complaint_of()),
        decreases entries@.len() - i,
    {
        proof {
            entries@.lemma_filter_map_take_succ(directory_of(), i as int);
            entries@.lemma_filter_map_take_succ(complaint_of(), i as int);
        }
        match &entries[i] {
            Entry::Found { path, is_dir } => {
                if *is_dir {
                    directories.push(path.clone());
                }
                assert(views(skipped@) + Seq::<Seq<char>>::empty() =~= views(skipped@));
            },
            Entry::Failed(complaint) => {
                let kept = complaint.clone();
                assert(views(skipped@.push(kept)) =~= views(skipped@) + seq![kept@]);
                skipped.push(kept);
            },
        }
        i = i + 1;
    }
    assert(entries@.take(entries@.len() as int) =~= entries@);
    Listing { directories, skipped }
}

/// The listing holds the directories and nothing else: a path is in it if
/// and only if an entry of that path is a directory.
pub proof fn lemma_listing_is_exact(entries: Seq<Entry>, path: PathBuf)
    ensures
        entries.filter_map(directory_of()).contains(path) <==> exists|i: int|
            0 <= i < entries.len() && #[trigger] entries[i] == (Entry::Found {
                path,
                is_dir: true,
            }),
    decreases entries.len(),
{
    let wanted = Entry::Found { path, is_dir: true };
    if entries.len() > 0 {
        let rest = entries.drop_last();
        let last = entries.last();
        lemma_listing_is_exact(rest, path);
        let before = rest.filter_map(directory_of());
        let all = entries.filter_map(directory_of());
        if directory_of()(last) == Some(path) {
            assert(last == wanted);
            assert(entries[entries.len() - 1] == wanted);
            assert(all == before + seq![path]);
            assert(all[all.len() - 1] == path);
        } else {
            if all.contains(path) {
                let k = choose|k: int| 0 <= k < all.len() && all[k] == path;
                if k < before.len() {
                    assert(before[k] == path);
                }
                assert(before.contains(path));
                let i = choose|i: int| 0 <= i < rest.len() && #[trigger] rest[i] == wanted;
                assert(entries[i] == wanted);
            }
            if exists|i: int| 0 <= i < entries.len() && #[trigger] entries[i] == wanted {
                let i = choose|i: int| 0 <= i < entries.len() && #[trigger] entries[i] == wanted;
                assert(i < rest.len());
                assert(rest[i] == wanted);
                assert(before.contains(path));
                let k = choose|k: int| 0 <= k < before.len() && before[k] == path;
                assert(all[k] == path);
            }
        }
    }
}

/// The picker that lets the user choose the sessions to end: one that takes
/// several choices and does no filtering of its own. There is none where
/// there are no sessions to choose from.
pub fn session_picker(session_names: &Vec<String>) -> (r: Option<FzfCmd>)
    ensures
        session_names@.len() == 0 <==> r is None,
        r matches Some(cmd) ==> views(cmd.args@) == seq!["--phony"@, "--multi"@],
{
    if session_names.len() == 0 {
        None
    } else {
        let mut cmd = FzfCmd::new();
        assert(views(cmd.args@) =~= Seq::<Seq<char>>::empty());
        cmd._arg("--phony");
        cmd._arg("--multi");
        assert(views(cmd.args@) =~= seq!["--phony"@, "--multi"@]);
        Some(cmd)
    }
}

} // verus!
