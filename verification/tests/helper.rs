use mukduk::helper::{
    fzf_get_sessions, get_directories, get_project, get_projects, pick_project, project_names,
    session_picker, Entry, Resolution, ResolveError,
};
use mukduk::project::Project;
use std::path::PathBuf;

fn line(words: &[&str]) -> Vec<String> {
    words.iter().map(|w| w.to_string()).collect()
}

fn root() -> PathBuf {
    PathBuf::from("/projects")
}

fn resolved(path: &str, name: &str) -> Result<Resolution, ResolveError> {
    Ok(Resolution::Resolved(Project { path: PathBuf::from(path), name: name.to_string() }))
}

#[test]
fn a_path_without_a_name_is_named_by_its_last_component() {
    assert_eq!(get_project(root(), &Some(PathBuf::from("/work/site")), None), resolved("/work/site", "site"));
    assert_eq!(get_project(root(), &Some(PathBuf::from("rel/my.app.rs")), None), resolved("rel/my.app.rs", "my_app_rs"));
    assert_eq!(get_project(root(), &Some(PathBuf::from("/work/site/")), None), resolved("/work/site/", "site"));
    assert_eq!(get_project(root(), &Some(PathBuf::from(".hidden")), None), resolved(".hidden", "_hidden"));
}

#[test]
fn a_given_name_wins_over_the_path() {
    assert_eq!(
        get_project(root(), &Some(PathBuf::from("/work/site")), Some("v1.2".to_string())),
        resolved("/work/site", "v1_2")
    );
    assert_eq!(
        get_project(root(), &Some(PathBuf::from("/")), Some("slash".to_string())),
        resolved("/", "slash")
    );
}

#[test]
fn a_path_without_a_last_component_gives_no_project() {
    assert_eq!(get_project(root(), &Some(PathBuf::from("/")), None), Err(ResolveError::NoFinalComponent));
    assert_eq!(get_project(root(), &Some(PathBuf::from("a/..")), None), Err(ResolveError::NoFinalComponent));
    assert_eq!(get_project(root(), &Some(PathBuf::from("")), None), Err(ResolveError::NoFinalComponent));
}

#[test]
fn an_empty_name_gives_no_project() {
    assert_eq!(
        get_project(root(), &Some(PathBuf::from("/work/site")), Some(String::new())),
        Err(ResolveError::EmptyName)
    );
}

#[test]
fn without_a_path_the_user_is_to_pick_under_the_root() {
    assert_eq!(get_project(root(), &None, None), Ok(Resolution::MustPick { root: root() }));
    assert_eq!(
        get_project(root(), &None, Some("ignored".to_string())),
        Ok(Resolution::MustPick { root: root() })
    );
}

#[test]
fn resolving_twice_gives_the_same_project() {
    let path = Some(PathBuf::from("/work/a.b.c"));
    let first = get_project(root(), &path, None);
    let second = get_project(root(), &path, None);
    assert_eq!(first, second);
    assert_eq!(first, resolved("/work/a.b.c", "a_b_c"));
}

#[test]
fn directories_become_projects_in_their_order() {
    let dirs = vec![PathBuf::from("/projects/zeta"), PathBuf::from("/projects/al.pha"), PathBuf::from("/projects/zeta")];
    let projects = get_projects(&dirs).expect("every directory has a name");
    assert_eq!(
        projects,
        vec![
            Project { path: PathBuf::from("/projects/zeta"), name: "zeta".to_string() },
            Project { path: PathBuf::from("/projects/al.pha"), name: "al_pha".to_string() },
            Project { path: PathBuf::from("/projects/zeta"), name: "zeta".to_string() },
        ]
    );
    assert_eq!(project_names(&projects), line(&["zeta", "al_pha", "zeta"]));
    assert_eq!(get_projects(&Vec::new()), Ok(Vec::new()));
}

#[test]
fn a_directory_without_a_name_fails_the_list() {
    let dirs = vec![PathBuf::from("/projects/ok"), PathBuf::from("/"), PathBuf::from("/projects/also")];
    assert_eq!(get_projects(&dirs), Err(ResolveError::NoFinalComponent));
}

#[test]
fn the_first_project_of_the_picked_name_is_taken() {
    let projects = vec![
        Project::new(PathBuf::from("/projects/a.b"), "a.b".to_string()),
        Project::new(PathBuf::from("/projects/a_b"), "a_b".to_string()),
        Project::new(PathBuf::from("/projects/c"), "c".to_string()),
    ];
    assert_eq!(
        pick_project(&projects, "a_b"),
        Ok(Project { path: PathBuf::from("/projects/a.b"), name: "a_b".to_string() })
    );
    assert_eq!(pick_project(&projects, "c"), Ok(Project { path: PathBuf::from("/projects/c"), name: "c".to_string() }));
}

#[test]
fn a_choice_that_names_no_project_selects_none() {
    let projects = vec![Project::new(PathBuf::from("/projects/one"), "one".to_string())];
    assert_eq!(pick_project(&projects, ""), Err(ResolveError::NoProjectSelected));
    assert_eq!(pick_project(&projects, "on"), Err(ResolveError::NoProjectSelected));
    assert_eq!(pick_project(&projects, "one "), Err(ResolveError::NoProjectSelected));
    assert_eq!(pick_project(&Vec::new(), "one"), Err(ResolveError::NoProjectSelected));
}

#[test]
fn picked_sessions_come_one_per_line() {
    assert_eq!(fzf_get_sessions("main\nwork"), line(&["main", "work"]));
    assert_eq!(fzf_get_sessions("main\nwork\n"), line(&["main", "work"]));
    assert_eq!(fzf_get_sessions("main"), line(&["main"]));
    assert_eq!(fzf_get_sessions(""), Vec::<String>::new());
    assert_eq!(fzf_get_sessions("\n"), Vec::<String>::new());
    assert_eq!(fzf_get_sessions("  \n\t\n"), Vec::<String>::new());
    assert_eq!(fzf_get_sessions("a\n\nb"), line(&["a", "", "b"]));
}

#[test]
fn the_session_picker_takes_several_choices() {
    assert_eq!(session_picker(&Vec::new()), None);
    let picker = session_picker(&line(&["main"])).expect("there is a session to pick");
    assert_eq!(picker.args, line(&["--phony", "--multi"]));
}

#[test]
fn only_the_directories_are_listed() {
    let entries = vec![
        Entry::Found { path: PathBuf::from("/projects/notes.txt"), is_dir: false },
        Entry::Found { path: PathBuf::from("/projects/site"), is_dir: true },
        Entry::Failed("permission denied".to_string()),
        Entry::Found { path: PathBuf::from("/projects/api"), is_dir: true },
        Entry::Found { path: PathBuf::from("/projects/link"), is_dir: false },
        Entry::Failed("stale handle".to_string()),
    ];
    let listing = get_directories(&entries);
    assert_eq!(listing.directories, vec![PathBuf::from("/projects/site"), PathBuf::from("/projects/api")]);
    assert_eq!(listing.skipped, line(&["permission denied", "stale handle"]));
}

#[test]
fn an_empty_root_lists_nothing() {
    let listing = get_directories(&Vec::new());
    assert!(listing.directories.is_empty());
    assert!(listing.skipped.is_empty());
}

#[test]
fn a_root_of_files_lists_nothing() {
    let entries = vec![
        Entry::Found { path: PathBuf::from("/projects/a"), is_dir: false },
        Entry::Found { path: PathBuf::from("/projects/b"), is_dir: false },
    ];
    assert!(get_directories(&entries).directories.is_empty());
}
