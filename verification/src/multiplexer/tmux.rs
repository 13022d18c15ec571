//! tmux: its commands, and how a session is reached in it.

use crate::command::{CommandOutput, Exit, Invocation, InvocationView, ToolError};
use crate::commands::project::ProjectArgs;
use crate::multiplexer::listing::{listed_sessions, parse_sessions};
use crate::multiplexer::open::{OpenOutcome, OpenState, Opening};
use crate::multiplexer::unique::{
    unique_next, unique_start, unique_step, Allocation, UniqueState,
};
use crate::multiplexer::{Multiplexers, Primitive};
use crate::paths::{path_argument, text_or_empty};
use crate::project::Project;
use crate::text::views;
use std::path::PathBuf;
use vstd::prelude::*;
use vstd::string::StringExecFns;

verus! {

/// The session named `name` and no other, as tmux takes a target.
pub open spec fn exact_target(name: Seq<char>) -> Seq<char> {
    "="@ + name
}

/// `tmux new-session` with `mode`, for the session `name` in directory `dir`.
pub open spec fn tmux_new_session(mode: Seq<char>, name: Seq<char>, dir: Seq<char>) -> InvocationView {
    InvocationView {
        program: "tmux"@,
        args: seq!["new-session"@, mode, "-s"@, name, "-c"@, dir],
        dir: None,
    }
}

/// A tmux command of three words.
pub open spec fn tmux_targeted(verb: Seq<char>, target: Seq<char>) -> InvocationView {
    InvocationView { program: "tmux"@, args: seq![verb, "-t"@, target], dir: None }
}

/// The tmux command for a step towards the session `name` in directory `dir`.
pub open spec fn tmux_command(step: Primitive, name: Seq<char>, dir: Seq<char>) -> InvocationView {
    match step {
        Primitive::CreateOrAttach => tmux_new_session("-A"@, name, dir),
        Primitive::CreateDetached => tmux_new_session("-d"@, name, dir),
        Primitive::HasSession => tmux_targeted("has-session"@, exact_target(name)),
        Primitive::Switch => tmux_targeted("switch-client"@, name),
    }
}

/// The first step towards a session. Outside tmux one command creates or
/// enters it; inside tmux that command is unsafe, and the session is asked
/// for first.
pub open spec fn tmux_open_start(in_session: bool) -> OpenState {
    if in_session {
        OpenState::Awaiting(Primitive::HasSession)
    } else {
        OpenState::Awaiting(Primitive::CreateOrAttach)
    }
}

/// What follows the command `step` that ended with `exit`. A session that
/// exists is switched to; one that is absent is created and then switched to;
/// any command that did not succeed ends the attempt, the question for the
/// session aside, which a refusal answers.
pub open spec fn tmux_open_next(step: Primitive, exit: Exit) -> OpenState {
    match (step, exit) {
        (Primitive::HasSession, Exit::Success) => OpenState::Awaiting(Primitive::Switch),
        (Primitive::HasSession, Exit::Failure) => OpenState::Awaiting(Primitive::CreateDetached),
        (Primitive::CreateDetached, Exit::Success) => OpenState::Awaiting(Primitive::Switch),
        (Primitive::CreateOrAttach, Exit::Success) => OpenState::Finished(OpenOutcome::Opened),
        (Primitive::Switch, Exit::Success) => OpenState::Finished(OpenOutcome::Opened),
        _ => OpenState::Finished(OpenOutcome::Failed { step, exit }),
    }
}

/// The multiplexer tmux.
pub struct Tmux;

impl Tmux {
    fn new_session(mode: &str, name: &str, path: &PathBuf) -> (r: Invocation)
        ensures
            r@ == tmux_new_session(mode@, name@, text_or_empty(*path)),
    {
        let mut args: Vec<String> = Vec::new();
        args.push("new-session".to_owned());
        args.push(mode.to_owned());
        args.push("-s".to_owned());
        args.push(name.to_owned());
        args.push("-c".to_owned());
        args.push(path_argument(path));
        let r = Invocation { program: "tmux".to_owned(), args, dir: None };
        assert(r@.args =~= tmux_new_session(mode@, name@, text_or_empty(*path)).args);
        r
    }

    fn targeted(verb: &str, target: String) -> (r: Invocation)
        ensures
            r@ == tmux_targeted(verb@, target@),
    {
        let mut args: Vec<String> = Vec::new();
        args.push(verb.to_owned());
        args.push("-t".to_owned());
        args.push(target);
        let r = Invocation { program: "tmux".to_owned(), args, dir: None };
        assert(r@.args =~= tmux_targeted(verb@, target@).args);
        r
    }

    fn exact(name: &str) -> (r: String)
        ensures
            r@ == exact_target(name@),
    {
        "=".to_owned().concat(name)
    }

    /// `tmux new-session -Ad`: creates the session without entering it
    /// where it is absent, and enters it where it exists.
    pub fn create_new_detached_attach_if_exists(name: &str, path: &PathBuf) -> (r: Invocation)
        ensures
            r@ == tmux_new_session("-Ad"@, name@, text_or_empty(*path)),
    {
        Self::new_session("-Ad", name, path)
    }

    /// `tmux new-session -A`: creates the session where it is absent, and
    /// enters it either way.
    pub fn create_new_attached_attach_if_exists(name: &str, path: &PathBuf) -> (r: Invocation)
        ensures
            r@ == tmux_command(Primitive::CreateOrAttach, name@, text_or_empty(*path)),
    {
        Self::new_session("-A", name, path)
    }

    /// `tmux new-session -d`: creates the session without entering it.
    pub fn create_new_detached(name: &str, path: &PathBuf) -> (r: Invocation)
        ensures
            r@ == tmux_command(Primitive::CreateDetached, name@, text_or_empty(*path)),
    {
        Self::new_session("-d", name, path)
    }

    /// `tmux switch-client`: shows the session `to_name`.
    pub fn switch(to_name: &str) -> (r: Invocation)
        ensures
            r@ == tmux_targeted("switch-client"@, to_name@),
    {
        Self::targeted("switch-client", to_name.to_owned())
    }

    /// `tmux has-session`: succeeds where a session of exactly that name exists.
    pub fn has_session(project_name: &str) -> (r: Invocation)
        ensures
            r@ == tmux_targeted("has-session"@, exact_target(project_name@)),
    {
        Self::targeted("has-session", Self::exact(project_name))
    }

    /// `tmux kill-session`: ends the session of exactly that name.
    pub fn kill_session(project_name: &str) -> (r: Invocation)
        ensures
            r@ == tmux_targeted("kill-session"@, exact_target(project_name@)),
    {
        Self::targeted("kill-session", Self::exact(project_name))
    }

    /// `tmux ls`: lists the sessions, one per line.
    pub fn list_command() -> (r: Invocation)
        ensures
            r@ == (InvocationView { program: "tmux"@, args: seq!["ls"@], dir: None }),
    {
        let mut args: Vec<String> = Vec::new();
        args.push("ls".to_owned());
        let r = Invocation { program: "tmux".to_owned(), args, dir: None };
        assert(r@.args =~= seq!["ls"@]);
        r
    }

    /// Whether the process runs inside tmux, which sets a marker in the
    /// environment of all that runs in it. `marker` is that variable's value.
    pub fn in_session(marker: &Option<String>) -> (r: bool)
        ensures
            r == marker is Some,
    {
        marker.is_some()
    }

    /// The command for a step towards the session of `project`.
    pub fn invocation(step: Primitive, project: &Project) -> (r: Invocation)
        ensures
            r@ == tmux_command(step, project.name@, text_or_empty(project.path)),
    {
        match step {
            Primitive::CreateOrAttach => Self::create_new_attached_attach_if_exists(
                project.name.as_str(),
                &project.path,
            ),
            Primitive::CreateDetached => Self::create_new_detached(
                project.name.as_str(),
                &project.path,
            ),
            Primitive::HasSession => Self::has_session(project.name.as_str()),
            Primitive::Switch => Self::switch(project.name.as_str()),
        }
    }

    /// Begins to open the session of `project`: nothing is issued yet, and the
    /// first command is the one that `tmux_open_start` names.
    pub fn open(_proj_args: &ProjectArgs, project: Project, in_session: bool) -> (r: Opening)
        ensures
            r.backend == Multiplexers::Tmux,
            r.project == project,
            r.state == tmux_open_start(in_session),
    {
        let state = if !in_session {
            OpenState::Awaiting(Primitive::CreateOrAttach)
        } else {
            OpenState::Awaiting(Primitive::HasSession)
        };
        Opening { backend: Multiplexers::Tmux, project, state }
    }

    /// Goes on opening a session: says what follows the command `step`, which
    /// ended with `exit`.
    pub fn open_next(step: Primitive, exit: Exit) -> (r: OpenState)
        ensures
            r == tmux_open_next(step, exit),
    {
        match exit {
            Exit::Success => match step {
                Primitive::HasSession => OpenState::Awaiting(Primitive::Switch),
                Primitive::CreateDetached => OpenState::Awaiting(Primitive::Switch),
                Primitive::CreateOrAttach => OpenState::Finished(OpenOutcome::Opened),
                Primitive::Switch => OpenState::Finished(OpenOutcome::Opened),
            },
            Exit::Failure => match step {
                Primitive::HasSession => OpenState::Awaiting(Primitive::CreateDetached),
                _ => OpenState::Finished(OpenOutcome::Failed { step, exit }),
            },
            Exit::NotRun => OpenState::Finished(OpenOutcome::Failed { step, exit }),
        }
    }

    /// Reads the sessions off what `tmux ls` printed: of each line the part
    /// before the first `:`, where that is not empty. A tmux that ran and
    /// reported failure has no sessions to print, which is no error; a tmux
    /// that did not run is one.
    pub fn list_sessions(run: &Option<CommandOutput>) -> (r: Result<Vec<String>, ToolError>)
        ensures
            match *run {
                None => r matches Err(ToolError::Unavailable),
                Some(output) => r matches Ok(names) && views(names@) == listed_sessions(
                    output.stdout@,
                    true,
                ),
            },
    {
        match run {
            None => Err(ToolError::Unavailable),
            Some(output) => Ok(parse_sessions(output.stdout.as_str(), true)),
        }
    }

    /// The commands that end the sessions `sessions`: one for each, in their
    /// order. All of them are to be run, however any of them ends.
    pub fn kill_sessions(sessions: &[String]) -> (r: Vec<Invocation>)
        ensures
            r@.len() == sessions@.len(),
            forall|i: int|
                0 <= i < sessions@.len() ==> (#[trigger] r@[i])@ == tmux_targeted(
                    "kill-session"@,
                    exact_target(sessions@[i]@),
                ),
    {
        let mut out: Vec<Invocation> = Vec::new();
        let mut i: usize = 0;
        while i < sessions.len()
            invariant
                i <= sessions@.len(),
                out@.len() == i,
                forall|j: int|
                    0 <= j < i ==> (#[trigger] out@[j])@ == tmux_targeted(
                        "kill-session"@,
                        exact_target(sessions@[j]@),
                    ),
            decreases sessions@.len() - i,
        {
            out.push(Self::kill_session(sessions[i].as_str()));
            i = i + 1;
        }
        out
    }

    /// Begins to open the session of the lowest free digit, in the directory
    /// `home`: the session `0` is asked for first.
    pub fn unique_session(home: PathBuf) -> (r: Allocation)
        ensures
            r.backend == Multiplexers::Tmux,
            r.home == home,
            r.state == unique_start(Multiplexers::Tmux),
            r.wf(),
    {
        Allocation {
            backend: Multiplexers::Tmux,
            home,
            state: UniqueState::Awaiting { step: Primitive::HasSession, digit: 0 },
        }
    }

    /// Goes on opening a numbered session: says what follows the command
    /// `step` for the digit `digit`, which ended with `exit`.
    pub fn unique_next(step: Primitive, digit: u8, exit: Exit) -> (r: UniqueState)
        ensures
            r == unique_next(step, digit, exit),
    {
        unique_step(step, digit, exit)
    }
}

} // verus!
