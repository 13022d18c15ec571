//! What the user can ask for.

use crate::commands::project::{asks_for, CommandError, ProjectSubcommand, Task};
use std::path::PathBuf;
use vstd::prelude::*;

pub mod project;

verus! {

/// A request.
#[derive(Debug, PartialEq, Eq)]
pub enum MukdukCommands {
    /// A request about projects.
    Project(ProjectSubcommand),
}

impl MukdukCommands {
    /// Says what the request asks to be done: for a request about projects,
    /// what that request asks for.
    pub fn handle_cmd(mukduk_command: Self, projects_dir: PathBuf, home: Option<PathBuf>) -> (r:
        Result<Task, CommandError>)
        ensures
            match mukduk_command {
                MukdukCommands::Project(cmd) => asks_for(cmd, projects_dir, home, r),
            },
    {
        match mukduk_command {
            Self::Project(project_sub_cmd) => ProjectSubcommand::handle_cmd(
                project_sub_cmd,
                projects_dir,
                home,
            ),
        }
    }
}

} // verus!
