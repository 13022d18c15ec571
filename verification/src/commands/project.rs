//! The requests about projects and their sessions, and what each of them
//! asks to be done.

use crate::config::ConfigError;
use crate::helper::{get_project, name_from, session_name, text_of, Resolution, ResolveError};
use crate::multiplexer::Multiplexers;
use crate::project::Project;
use std::path::PathBuf;
use vstd::prelude::*;

verus! {

/// Which multiplexer a request is for.
#[derive(Debug, PartialEq, Eq)]
pub struct SessionArgs {
    pub multiplexer: Multiplexers,
}

/// Which project a request is for. The name defaults to that of the directory.
#[derive(Debug, PartialEq, Eq)]
pub struct ProjectArgs {
    pub name: Option<String>,
    pub project_dir: Option<PathBuf>,
}

/// How a list of projects is printed.
#[derive(Copy, Clone, Debug, PartialEq, Eq, Structural)]
pub enum OutputFormat {
    /// As the program's own values.
    Debug,
    /// JSON, indented.
    Json,
    /// JSON on one line.
    JsonR,
    /// YAML.
    Yaml,
}

/// A request about projects.
#[derive(Debug, PartialEq, Eq)]
pub enum ProjectSubcommand {
    /// Open the session of a project.
    Open { proj_args: ProjectArgs, sess_args: SessionArgs },
    /// Open a scratch session: named `scratch` and in the home directory,
    /// unless said otherwise.
    Scratch { proj_args: ProjectArgs, sess_args: SessionArgs },
    /// End sessions that the user picks.
    Kill { proj_args: ProjectArgs, sess_args: SessionArgs },
    /// Open the session of the lowest free digit, in the home directory.
    Home { proj_args: ProjectArgs, sess_args: SessionArgs },
    /// List the projects of the projects root.
    List { output: OutputFormat },
    /// Clone a repository into the projects root.
    New { proj_args: ProjectArgs, ssh_uri: String },
}

/// Why a request asks for nothing.
#[derive(Copy, Clone, Debug, PartialEq, Eq, Structural)]
pub enum CommandError {
    /// No project came of what the user gave.
    Resolve(ResolveError),
    /// A directory that the request needs is not known.
    Config(ConfigError),
}

/// What a request asks to be done.
#[derive(Debug, PartialEq, Eq)]
pub enum Task {
    /// Open the session of this project.
    Open { multiplexer: Multiplexers, proj_args: ProjectArgs, project: Project },
    /// Let the user choose a project under `root`, then open its session.
    PickAndOpen { multiplexer: Multiplexers, proj_args: ProjectArgs, root: PathBuf },
    /// List the sessions, let the user pick, and end the picked ones.
    Kill { multiplexer: Multiplexers },
    /// Open the session of the lowest free digit, in `home`.
    Unique { multiplexer: Multiplexers, home: PathBuf },
    /// List the projects under `root`.
    List { root: PathBuf, output: OutputFormat },
    /// Clone the repository at `ssh_uri` into `into`.
    Clone { ssh_uri: String, into: PathBuf },
}

/// The name of a scratch session that was given none.
pub open spec fn scratch_name() -> Seq<char> {
    "scratch"@
}

/// Whether `r` is what the request `cmd` asks for, with the projects root
/// `projects_dir` and the home directory `home`, where that is known.
pub open spec fn asks_for(
    cmd: ProjectSubcommand,
    projects_dir: PathBuf,
    home: Option<PathBuf>,
    r: Result<Task, CommandError>,
) -> bool {
    match cmd {
        ProjectSubcommand::Open { proj_args, sess_args } => match proj_args.project_dir {
            None => r matches Ok(Task::PickAndOpen { multiplexer, proj_args: args, root })
                && multiplexer == sess_args.multiplexer && args == proj_args && root
                == projects_dir,
            Some(path) => match session_name(path, text_of(proj_args.name)) {
                Ok(text) => r matches Ok(Task::Open { multiplexer, proj_args: args, project })
                    && multiplexer == sess_args.multiplexer && args == proj_args && project.path
                    == path && project.name@ == text,
                Err(e) => r matches Err(CommandError::Resolve(error)) && error == e,
            },
        },
        ProjectSubcommand::Scratch { proj_args, sess_args } => {
            let dir = match proj_args.project_dir {
                Some(d) => Some(d),
                None => home,
            };
            let raw = match proj_args.name {
                Some(n) => n@,
                None => scratch_name(),
            };
            match (dir, name_from(raw)) {
                (None, _) => r matches Err(CommandError::Config(ConfigError::Generic)),
                (Some(_), Err(e)) => r matches Err(CommandError::Resolve(error)) && error == e,
                (Some(d), Ok(text)) => r matches Ok(
                    Task::Open { multiplexer, proj_args: args, project },
                ) && multiplexer == sess_args.multiplexer && args == proj_args && project.path == d
                    && project.name@ == text,
            }
        },
        ProjectSubcommand::Kill { proj_args, sess_args } => r matches Ok(
            Task::Kill { multiplexer },
        ) && multiplexer == sess_args.multiplexer,
        ProjectSubcommand::Home { proj_args, sess_args } => match home {
            Some(h) => r matches Ok(Task::Unique { multiplexer, home: dir }) && multiplexer
                == sess_args.multiplexer && dir == h,
            None => r matches Err(CommandError::Config(ConfigError::Generic)),
        },
        ProjectSubcommand::List { output } => r matches Ok(Task::List { root, output: format })
            && root == projects_dir && format == output,
        ProjectSubcommand::New { proj_args, ssh_uri } => r matches Ok(
            Task::Clone { ssh_uri: uri, into },
        ) && uri == ssh_uri && into == projects_dir,
    }
}

fn copy_of(name: &Option<String>) -> (r: Option<String>)
    ensures
        r == *name,
{
    match name {
        Some(n) => Some(n.clone()),
        None => None,
    }
}

impl ProjectSubcommand {
    /// Says what the request asks to be done. The project of a request to
    /// open is resolved here, as far as it can be without the user; a
    /// scratch session is named `scratch` and lies in the home directory
    /// unless the request says otherwise.
    pub fn handle_cmd(project_sub_cmd: Self, projects_dir: PathBuf, home: Option<PathBuf>) -> (r:
        Result<Task, CommandError>)
        ensures
            asks_for(project_sub_cmd, projects_dir, home, r),
    {
        match project_sub_cmd {
            Self::Open { proj_args, sess_args } => {
                let resolution = get_project(
                    projects_dir,
                    &proj_args.project_dir,
                    copy_of(&proj_args.name),
                );
                match resolution {
                    Ok(Resolution::Resolved(project)) => Ok(
                        Task::Open { multiplexer: sess_args.multiplexer, proj_args, project },
                    ),
                    Ok(Resolution::MustPick { root }) => Ok(
                        Task::PickAndOpen { multiplexer: sess_args.multiplexer, proj_args, root },
                    ),
                    Err(e) => Err(CommandError::Resolve(e)),
                }
            },
            Self::Scratch { proj_args, sess_args } => {
                let dir = match &proj_args.project_dir {
                    Some(d) => Some(d.clone()),
                    None => home,
                };
                let raw = match &proj_args.name {
                    Some(n) => n.clone(),
                    None => "scratch".to_owned(),
                };
                match dir {
                    None => Err(CommandError::Config(ConfigError::Generic)),
                    Some(d) => {
                        if raw.as_str().is_empty() {
                            Err(CommandError::Resolve(ResolveError::EmptyName))
                        } else {
                            Ok(
                                Task::Open {
                                    multiplexer: sess_args.multiplexer,
                                    proj_args,
                                    project: Project::new(d, raw),
                                },
                            )
                        }
                    },
                }
            },
            Self::Kill { proj_args: _, sess_args } => Ok(
                Task::Kill { multiplexer: sess_args.multiplexer },
            ),
            Self::Home { proj_args: _, sess_args } => match home {
                Some(h) => Ok(Task::Unique { multiplexer: sess_args.multiplexer, home: h }),
                None => Err(CommandError::Config(ConfigError::Generic)),
            },
            Self::List { output } => Ok(Task::List { root: projects_dir, output }),
            Self::New { proj_args: _, ssh_uri } => Ok(Task::Clone { ssh_uri, into: projects_dir }),
        }
    }
}

} // verus!
