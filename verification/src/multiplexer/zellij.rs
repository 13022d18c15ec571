//! zellij: its commands, and how a session is reached in it.

use crate::command::{CommandOutput, Exit, Invocation, InvocationView, ToolError};
use crate::commands::project::ProjectArgs;
use crate::multiplexer::listing::{listed_sessions, parse_sessions};
use crate::multiplexer::open::{OpenOutcome, OpenState, Opening};
use crate::multiplexer::unique::{unique_start, Allocation, UniqueState};
use crate::multiplexer::{Multiplexers, Primitive};
use crate::paths::{path_argument, text_or_empty};
use crate::project::Project;
use crate::text::{any_is, chars_of, contains, contains_text, split, split_on, views};
use std::path::PathBuf;
use vstd::prelude::*;

verus! {

/// `zellij a -c`, run in the directory `dir`: creates the session `name`
/// where it is absent, and enters it either way.
pub open spec fn zellij_attach(name: Seq<char>, dir: Seq<char>) -> InvocationView {
    InvocationView { program: "zellij"@, args: seq!["a"@, "-c"@, name], dir: Some(dir) }
}

/// `zellij attach --create-background`, run in the directory `dir`: creates
/// the session `name` where it is absent, without entering it.
pub open spec fn zellij_create_background(name: Seq<char>, dir: Seq<char>) -> InvocationView {
    InvocationView {
        program: "zellij"@,
        args: seq!["attach"@, "--create-background"@, name],
        dir: Some(dir),
    }
}

/// `zellij action switch-session`: shows the session `name`.
pub open spec fn zellij_switch(name: Seq<char>) -> InvocationView {
    InvocationView { program: "zellij"@, args: seq!["action"@, "switch-session"@, name], dir: None }
}

/// `zellij ls`: lists the sessions, one per line.
pub open spec fn zellij_listing() -> InvocationView {
    InvocationView { program: "zellij"@, args: seq!["ls"@], dir: None }
}

/// `zellij kill-session`: ends the session `name`.
pub open spec fn zellij_kill(name: Seq<char>) -> InvocationView {
    InvocationView { program: "zellij"@, args: seq!["kill-session"@, name], dir: None }
}

/// The zellij command for a step towards the session `name` in directory
/// `dir`. The question for a session is put by listing the sessions.
pub open spec fn zellij_command(step: Primitive, name: Seq<char>, dir: Seq<char>) -> InvocationView {
    match step {
        Primitive::CreateOrAttach => zellij_attach(name, dir),
        Primitive::CreateDetached => zellij_create_background(name, dir),
        Primitive::HasSession => zellij_listing(),
        Primitive::Switch => zellij_switch(name),
    }
}

/// The first step towards a session. Outside zellij one command creates or
/// enters it; inside zellij that command would nest sessions, and the
/// session is asked for first.
pub open spec fn zellij_open_start(in_session: bool) -> OpenState {
    if in_session {
        OpenState::Awaiting(Primitive::HasSession)
    } else {
        OpenState::Awaiting(Primitive::CreateOrAttach)
    }
}

/// What follows the command `step` that ended with `exit`. A session that
/// exists is switched to; one that is absent is created and then switched
/// to; any other end but success ends the attempt.
pub open spec fn zellij_open_next(step: Primitive, exit: Exit) -> OpenState {
    match (step, exit) {
        (Primitive::HasSession, Exit::Success) => OpenState::Awaiting(Primitive::Switch),
        (Primitive::HasSession, Exit::Failure) => OpenState::Awaiting(Primitive::CreateDetached),
        (Primitive::CreateDetached, Exit::Success) => OpenState::Awaiting(Primitive::Switch),
        (Primitive::CreateOrAttach, Exit::Success) => OpenState::Finished(OpenOutcome::Opened),
        (Primitive::Switch, Exit::Success) => OpenState::Finished(OpenOutcome::Opened),
        _ => OpenState::Finished(OpenOutcome::Failed { step, exit }),
    }
}

/// What zellij says when it has no sessions at all.
pub open spec fn no_sessions_text() -> Seq<char> {
    "No active zellij sessions found."@
}

/// Whether the listing `output` answers the question for the session `name`,
/// and how: a listing that succeeded holds the name on a line of its own or
/// does not; one that failed because there are no sessions says no; any
/// other failure is no answer.
pub open spec fn zellij_answer(name: Seq<char>, output: CommandOutput) -> Option<bool> {
    if output.success {
        Some(split_on(output.stdout@, '\n').contains(name))
    } else if contains_text(output.stderr@, no_sessions_text()) {
        Some(false)
    } else {
        None
    }
}

/// How the command of a step ended, as an attempt takes it. The question
/// for the session `name` ends well where the listing holds the name, and
/// is refused where it does not; a listing that is no answer counts as a
/// command that did not run, and no session has the empty name. Every other
/// step ends as its program did.
pub open spec fn zellij_verdict(step: Primitive, name: Seq<char>, run: Option<CommandOutput>) -> Exit {
    match run {
        None => Exit::NotRun,
        Some(output) => if step == Primitive::HasSession {
            if name.len() == 0 {
                Exit::Failure
            } else {
                match zellij_answer(name, output) {
                    Some(true) => Exit::Success,
                    Some(false) => Exit::Failure,
                    None => Exit::NotRun,
                }
            }
        } else if output.success {
            Exit::Success
        } else {
            Exit::Failure
        },
    }
}

/// The multiplexer zellij.
pub struct Zellij;

impl Zellij {
    fn named(first: &str, second: &str, name: &str, dir: Option<String>) -> (r: Invocation)
        ensures
            r@ == (InvocationView {
                program: "zellij"@,
                args: seq![first@, second@, name@],
                dir: match dir {
                    Some(d) => Some(d@),
                    None => None,
                },
            }),
    {
        let mut args: Vec<String> = Vec::new();
        args.push(first.to_owned());
        args.push(second.to_owned());
        args.push(name.to_owned());
        let r = Invocation { program: "zellij".to_owned(), args, dir };
        assert(r@.args =~= seq![first@, second@, name@]);
        r
    }

    /// `zellij a -c`: creates the session where it is absent, and enters it
    /// either way. It runs in the directory of the project.
    pub fn create_attached(name: &str, path: &PathBuf) -> (r: Invocation)
        ensures
            r@ == zellij_attach(name@, text_or_empty(*path)),
    {
        Self::named("a", "-c", name, Some(path_argument(path)))
    }

    /// `zellij attach --create-background`: creates the session without
    /// entering it. It runs in the directory of the project.
    pub fn create_detached(name: &str, path: &PathBuf) -> (r: Invocation)
        ensures
            r@ == zellij_create_background(name@, text_or_empty(*path)),
    {
        Self::named("attach", "--create-background", name, Some(path_argument(path)))
    }

    /// `zellij action switch-session`: shows the session `to_name`.
    pub fn switch(to_name: &str) -> (r: Invocation)
        ensures
            r@ == zellij_switch(to_name@),
    {
        Self::named("action", "switch-session", to_name, None)
    }

    /// `zellij kill-session`: ends the session of that name.
    pub fn kill_session(project_name: &str) -> (r: Invocation)
        ensures
            r@ == zellij_kill(project_name@),
    {
        let mut args: Vec<String> = Vec::new();
        args.push("kill-session".to_owned());
        args.push(project_name.to_owned());
        let r = Invocation { program: "zellij".to_owned(), args, dir: None };
        assert(r@.args =~= seq!["kill-session"@, project_name@]);
        r
    }

    /// `zellij ls`: lists the sessions, one per line.
    pub fn list_command() -> (r: Invocation)
        ensures
            r@ == zellij_listing(),
    {
        let mut args: Vec<String> = Vec::new();
        args.push("ls".to_owned());
        let r = Invocation { program: "zellij".to_owned(), args, dir: None };
        assert(r@.args =~= seq!["ls"@]);
        r
    }

    /// Whether the process runs outside zellij, which sets a marker in the
    /// environment of all that runs in it. `marker` is that variable's value.
    pub fn not_in(marker: &Option<String>) -> (r: bool)
        ensures
            r == marker is None,
    {
        marker.is_none()
    }

    /// The command for a step towards the session of `project`.
    pub fn invocation(step: Primitive, project: &Project) -> (r: Invocation)
        ensures
            r@ == zellij_command(step, project.name@, text_or_empty(project.path)),
    {
        match step {
            Primitive::CreateOrAttach => Self::create_attached(
                project.name.as_str(),
                &project.path,
            ),
            Primitive::CreateDetached => Self::create_detached(
                project.name.as_str(),
                &project.path,
            ),
            Primitive::HasSession => Self::list_command(),
            Primitive::Switch => Self::switch(project.name.as_str()),
        }
    }

    /// Begins to open the session of `project`: outside zellij one command
    /// that creates or enters it is to come; inside zellij the question for
    /// the session comes first.
    pub fn open(_proj_args: &ProjectArgs, project: Project, in_session: bool) -> (r: Opening)
        ensures
            r.backend == Multiplexers::Zellij,
            r.project == project,
            r.state == zellij_open_start(in_session),
    {
        let state = if !in_session {
            OpenState::Awaiting(Primitive::CreateOrAttach)
        } else {
            OpenState::Awaiting(Primitive::HasSession)
        };
        Opening { backend: Multiplexers::Zellij, project, state }
    }

    /// Goes on opening a session: says what follows the command `step`, which
    /// ended with `exit`.
    pub fn open_next(step: Primitive, exit: Exit) -> (r: OpenState)
        ensures
            r == zellij_open_next(step, exit),
    {
        match exit {
            Exit::Success => match step {
                Primitive::HasSession => OpenState::Awaiting(Primitive::Switch),
                Primitive::CreateDetached => OpenState::Awaiting(Primitive::Switch),
                Primitive::CreateOrAttach => OpenState::Finished(OpenOutcome::Opened),
                Primitive::Switch => OpenState::Finished(OpenOutcome::Opened),
            },
            Exit::Failure => match step {
                Primitive::HasSession => OpenState::Awaiting(Primitive::CreateDetached),
                _ => OpenState::Finished(OpenOutcome::Failed { step, exit }),
            },
            Exit::NotRun => OpenState::Finished(OpenOutcome::Failed { step, exit }),
        }
    }

    /// Reads the sessions off what `zellij ls` printed: each line that is not
    /// empty. A zellij that did not run is an error.
    pub fn list_sessions(run: &Option<CommandOutput>) -> (r: Result<Vec<String>, ToolError>)
        ensures
            match *run {
                None => r matches Err(ToolError::Unavailable),
                Some(output) => r matches Ok(names) && views(names@) == listed_sessions(
                    output.stdout@,
                    false,
                ),
            },
    {
        match run {
            None => Err(ToolError::Unavailable),
            Some(output) => Ok(parse_sessions(output.stdout.as_str(), false)),
        }
    }

    /// The commands that end the sessions `sessions`: one for each, in their
    /// order. All of them are to be run, however any of them ends.
    pub fn kill_sessions(sessions: &[String]) -> (r: Vec<Invocation>)
        ensures
            r@.len() == sessions@.len(),
            forall|i: int|
                0 <= i < sessions@.len() ==> (#[trigger] r@[i])@ == zellij_kill(sessions@[i]@),
    {
        let mut out: Vec<Invocation> = Vec::new();
        let mut i: usize = 0;
        while i < sessions.len()
            invariant
                i <= sessions@.len(),
                out@.len() == i,
                forall|j: int| 0 <= j < i ==> (#[trigger] out@[j])@ == zellij_kill(sessions@[j]@),
            decreases sessions@.len() - i,
        {
            out.push(Self::kill_session(sessions[i].as_str()));
            i = i + 1;
        }
        out
    }

    /// Begins to open the session of the lowest free digit, in the directory
    /// `home`: the session `0` is asked for first.
    pub fn unique_session(home: PathBuf) -> (r: Allocation)
        ensures
            r.backend == Multiplexers::Zellij,
            r.home == home,
            r.state == unique_start(Multiplexers::Zellij),
            r.wf(),
    {
        Allocation {
            backend: Multiplexers::Zellij,
            home,
            state: UniqueState::Awaiting { step: Primitive::HasSession, digit: 0 },
        }
    }

    /// Answers the question for the session `project_name` from what
    /// `zellij ls` left behind. A zellij that did not run, or that failed for
    /// another reason than having no sessions, is an error; the complaint
    /// comes with it.
    pub fn has_session(project_name: &str, run: &Option<CommandOutput>) -> (r: Result<
        bool,
        ToolError,
    >)
        requires
            project_name@.len() > 0,
        ensures
            match *run {
                None => r matches Err(ToolError::Unavailable),
                Some(output) => match zellij_answer(project_name@, output) {
                    Some(answer) => r == Ok::<bool, ToolError>(answer),
                    None => r matches Err(ToolError::Unexpected(text)) && text@
                        == output.stderr@,
                },
            },
    {
        match run {
            None => Err(ToolError::Unavailable),
            Some(output) => {
                if output.success {
                    let lines = split(&chars_of(output.stdout.as_str()), '\n');
                    Ok(any_is(&lines, &chars_of(project_name)))
                } else if contains(
                    &chars_of(output.stderr.as_str()),
                    &chars_of("No active zellij sessions found."),
                ) {
                    Ok(false)
                } else {
                    Err(ToolError::Unexpected(output.stderr.clone()))
                }
            },
        }
    }

    /// Says how the command of `step` ended, as an attempt takes it, from
    /// what the command left behind. The question for the session `name` is
    /// answered by the listing.
    pub fn verdict(step: Primitive, name: &str, run: &Option<CommandOutput>) -> (r: Exit)
        ensures
            r == zellij_verdict(step, name@, *run),
    {
        match run {
            None => Exit::NotRun,
            Some(output) => match step {
                Primitive::HasSession => {
                    if name.is_empty() {
                        Exit::Failure
                    } else {
                        match Self::has_session(name, run) {
                            Ok(true) => Exit::Success,
                            Ok(false) => Exit::Failure,
                            Err(_) => Exit::NotRun,
                        }
                    }
                },
                _ => output.exit(),
            },
        }
    }
}

} // verus!
