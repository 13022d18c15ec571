//! The terminal multiplexers: what each offers, and the selector that
//! hands a request to the one that it names.

use crate::command::{CommandOutput, Invocation, InvocationView, ToolError};
use crate::commands::project::ProjectArgs;
use crate::multiplexer::listing::listed_sessions;
use crate::multiplexer::open::{open_start, Opening};
use crate::multiplexer::tmux::{exact_target, tmux_targeted, Tmux};
use crate::multiplexer::unique::{unique_start, Allocation};
use crate::multiplexer::zellij::{zellij_kill, Zellij};
use crate::project::Project;
use crate::text::views;
use std::path::PathBuf;
use vstd::prelude::*;

pub mod kill;
pub mod listing;
pub mod open;
pub mod reconcile;
pub mod tmux;
pub mod unique;
pub mod zellij;

verus! {

/// The multiplexers that sessions can be kept in.
#[derive(Copy, Clone, Debug, PartialEq, Eq, PartialOrd, Ord, Structural)]
pub enum Multiplexers {
    Tmux,
    Zellij,
}

/// The commands that reaching a session is made of.
#[derive(Copy, Clone, Debug, PartialEq, Eq, Structural)]
pub enum Primitive {
    /// Create the session if it is absent, and enter it either way.
    CreateOrAttach,
    /// Ask whether a session of that name exists.
    HasSession,
    /// Create the session without entering it.
    CreateDetached,
    /// Make the session the one that the user sees.
    Switch,
}

/// The variable that a multiplexer sets in the environment of all that runs
/// inside it.
pub open spec fn marker_of(backend: Multiplexers) -> Seq<char> {
    match backend {
        Multiplexers::Tmux => "TMUX"@,
        Multiplexers::Zellij => "ZELLIJ"@,
    }
}

/// The command that lists the sessions of a multiplexer.
pub open spec fn list_command_of(backend: Multiplexers) -> InvocationView {
    InvocationView {
        program: match backend {
            Multiplexers::Tmux => "tmux"@,
            Multiplexers::Zellij => "zellij"@,
        },
        args: seq!["ls"@],
        dir: None,
    }
}

/// The command that ends the session `name`.
pub open spec fn kill_command_of(backend: Multiplexers, name: Seq<char>) -> InvocationView {
    match backend {
        Multiplexers::Tmux => tmux_targeted(
            "kill-session"@,
            exact_target(name),
        ),
        Multiplexers::Zellij => zellij_kill(name),
    }
}

/// What a multiplexer offers: to open the session of a project, to list the
/// sessions, to end some of them, and to open a numbered one.
pub trait Multiplexer: Sized {
    /// Begins to open the session of `project`.
    fn open(self, proj_args: &ProjectArgs, project: Project, in_session: bool) -> Opening;

    /// Reads the sessions off what the listing command left behind.
    fn get_sessions(self, run: &Option<CommandOutput>) -> Result<Vec<String>, ToolError>;

    /// The commands that end the sessions `sessions`.
    fn kill_sessions(self, sessions: Vec<String>) -> Vec<Invocation>;

    /// Begins to open the session of the lowest free digit.
    fn unique_session(self, home: PathBuf) -> Allocation;
}

impl Multiplexer for Multiplexers {
    fn open(self, proj_args: &ProjectArgs, project: Project, in_session: bool) -> (r: Opening)
        ensures
            r.backend == self,
            r.project == project,
            r.state == open_start(self, in_session),
    {
        match self {
            Self::Tmux => Tmux::open(proj_args, project, in_session),
            Self::Zellij => Zellij::open(proj_args, project, in_session),
        }
    }

    fn get_sessions(self, run: &Option<CommandOutput>) -> (r: Result<Vec<String>, ToolError>)
        ensures
            match *run {
                None => r matches Err(ToolError::Unavailable),
                Some(output) => r matches Ok(names) && views(names@) == listed_sessions(
                    output.stdout@,
                    self == Multiplexers::Tmux,
                ),
            },
    {
        match self {
            Self::Tmux => Tmux::list_sessions(run),
            Self::Zellij => Zellij::list_sessions(run),
        }
    }

    fn kill_sessions(self, sessions: Vec<String>) -> (r: Vec<Invocation>)
        ensures
            r@.len() == sessions@.len(),
            forall|i: int|
                0 <= i < sessions@.len() ==> (#[trigger] r@[i])@ == kill_command_of(
                    self,
                    sessions@[i]@,
                ),
    {
        match self {
            Self::Tmux => Tmux::kill_sessions(sessions.as_slice()),
            Self::Zellij => Zellij::kill_sessions(sessions.as_slice()),
        }
    }

    fn unique_session(self, home: PathBuf) -> (r: Allocation)
        ensures
            r.backend == self,
            r.home == home,
            r.state == unique_start(self),
            r.wf(),
    {
        match self {
            Self::Tmux => Tmux::unique_session(home),
            Self::Zellij => Zellij::unique_session(home),
        }
    }
}

impl Multiplexers {
    /// The name of the variable that tells that the process runs inside
    /// this multiplexer.
    pub fn marker(self) -> (r: &'static str)
        ensures
            r@ == marker_of(self),
    {
        match self {
            Self::Tmux => "TMUX",
            Self::Zellij => "ZELLIJ",
        }
    }

    /// Whether the process runs inside this multiplexer: whether the marker
    /// variable, whose value is `marker`, is set.
    pub fn in_session(self, marker: &Option<String>) -> (r: bool)
        ensures
            r == marker is Some,
    {
        match self {
            Self::Tmux => Tmux::in_session(marker),
            Self::Zellij => !Zellij::not_in(marker),
        }
    }

    /// The command that lists the sessions.
    pub fn list_command(self) -> (r: Invocation)
        ensures
            r@ == list_command_of(self),
    {
        match self {
            Self::Tmux => Tmux::list_command(),
            Self::Zellij => Zellij::list_command(),
        }
    }
}

} // verus!
