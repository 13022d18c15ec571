//! Opening the session of a project: which command to issue next, given
//! how the last one ended.

use crate::command::{exit_of, exit_of_run, CommandOutput, Exit, Invocation, InvocationView};
use crate::multiplexer::tmux::{tmux_command, tmux_open_next, tmux_open_start, Tmux};
use crate::paths::text_or_empty;
use crate::multiplexer::zellij::{
    zellij_command, zellij_open_next, zellij_open_start, zellij_verdict, Zellij,
};
use crate::multiplexer::{Multiplexers, Primitive};
use crate::project::Project;
use vstd::prelude::*;

verus! {

/// How an attempt to open a session ended.
#[derive(Copy, Clone, Debug, PartialEq, Eq, Structural)]
pub enum OpenOutcome {
    /// The user is in the session.
    Opened,
    /// The command of this step did not succeed; nothing was issued after it.
    Failed { step: Primitive, exit: Exit },
}

/// Where an attempt to open a session stands.
#[derive(Copy, Clone, Debug, PartialEq, Eq, Structural)]
pub enum OpenState {
    /// This command is to be issued; its end decides what follows.
    Awaiting(Primitive),
    /// Nothing more is to be issued.
    Finished(OpenOutcome),
}

/// The first step towards a session, given whether the process already runs
/// inside the multiplexer.
pub open spec fn open_start(backend: Multiplexers, in_session: bool) -> OpenState {
    match backend {
        Multiplexers::Tmux => tmux_open_start(in_session),
        Multiplexers::Zellij => zellij_open_start(in_session),
    }
}

/// What follows the command `step` that ended with `exit`.
pub open spec fn open_next(backend: Multiplexers, step: Primitive, exit: Exit) -> OpenState {
    match backend {
        Multiplexers::Tmux => tmux_open_next(step, exit),
        Multiplexers::Zellij => zellij_open_next(step, exit),
    }
}

/// The command that a step stands for, towards the session `name` in
/// directory `dir`.
pub open spec fn command_for(
    backend: Multiplexers,
    step: Primitive,
    name: Seq<char>,
    dir: Seq<char>,
) -> InvocationView {
    match backend {
        Multiplexers::Tmux => tmux_command(step, name, dir),
        Multiplexers::Zellij => zellij_command(step, name, dir),
    }
}

/// How the command of a step ended, as an attempt takes it, given what the
/// command left behind; `None` stands for a command that did not run. In
/// tmux every command ends as its program did. In zellij the question for
/// the session `name` is answered by the listing that it printed.
pub open spec fn verdict_of(
    backend: Multiplexers,
    step: Primitive,
    name: Seq<char>,
    run: Option<CommandOutput>,
) -> Exit {
    match backend {
        Multiplexers::Tmux => exit_of_run(run),
        Multiplexers::Zellij => zellij_verdict(step, name, run),
    }
}

/// An attempt to open the session of a project: where it stands, and for
/// which project and multiplexer it is made.
#[derive(Debug, PartialEq, Eq)]
pub struct Opening {
    pub backend: Multiplexers,
    pub project: Project,
    pub state: OpenState,
}

impl Opening {
    /// The state after the awaited command ended with `exit`. An attempt that
    /// has finished stays as it is.
    pub open spec fn advanced(self, exit: Exit) -> OpenState {
        match self.state {
            OpenState::Awaiting(step) => open_next(self.backend, step, exit),
            OpenState::Finished(_) => self.state,
        }
    }

    /// The command to run now, as mathematical text: that of the awaited
    /// step; none once the attempt has finished.
    pub open spec fn pending(self) -> Option<InvocationView> {
        match self.state {
            OpenState::Awaiting(step) => Some(
                command_for(
                    self.backend,
                    step,
                    self.project.name@,
                    text_or_empty(self.project.path),
                ),
            ),
            OpenState::Finished(_) => None,
        }
    }

    /// The command to run now: that of the awaited step, for this project.
    /// There is none once the attempt has finished.
    pub fn command(&self) -> (r: Option<Invocation>)
        ensures
            match self.pending() {
                Some(v) => r matches Some(c) && c@ == v,
                None => r is None,
            },
    {
        match self.state {
            OpenState::Awaiting(step) => match self.backend {
                Multiplexers::Tmux => Some(Tmux::invocation(step, &self.project)),
                Multiplexers::Zellij => Some(Zellij::invocation(step, &self.project)),
            },
            OpenState::Finished(_) => None,
        }
    }

    /// Says how the awaited command ended, as `advance` takes it, from what
    /// the command left behind; `None` stands for a command that did not
    /// run. For an attempt that has finished it is how the program ended.
    pub fn verdict(&self, run: &Option<CommandOutput>) -> (r: Exit)
        ensures
            r == match self.state {
                OpenState::Awaiting(step) => verdict_of(
                    self.backend,
                    step,
                    self.project.name@,
                    *run,
                ),
                OpenState::Finished(_) => exit_of_run(*run),
            },
    {
        match self.state {
            OpenState::Awaiting(step) => match self.backend {
                Multiplexers::Tmux => exit_of(run),
                Multiplexers::Zellij => Zellij::verdict(step, self.project.name.as_str(), run),
            },
            OpenState::Finished(_) => exit_of(run),
        }
    }

    /// Takes in how the awaited command ended, and moves on.
    pub fn advance(&mut self, exit: Exit)
        ensures
            final(self).backend == old(self).backend,
            final(self).project == old(self).project,
            final(self).state == old(self).advanced(exit),
    {
        match self.state {
            OpenState::Awaiting(step) => {
                self.state = match self.backend {
                    Multiplexers::Tmux => Tmux::open_next(step, exit),
                    Multiplexers::Zellij => Zellij::open_next(step, exit),
                };
            },
            OpenState::Finished(_) => {},
        }
    }

    /// How the attempt ended, once it has.
    pub fn outcome(&self) -> (r: Option<OpenOutcome>)
        ensures
            r == match self.state {
                OpenState::Awaiting(_) => None,
                OpenState::Finished(outcome) => Some(outcome),
            },
    {
        match self.state {
            OpenState::Awaiting(_) => None,
            OpenState::Finished(outcome) => Some(outcome),
        }
    }
}

/// Whether the end of a step is a failure that the user is told of: any end
/// but success, the refusal aside by which a multiplexer says that it has
/// no such session.
pub open spec fn step_failed(step: Primitive, exit: Exit) -> bool {
    exit != Exit::Success && !(step == Primitive::HasSession && exit == Exit::Failure)
}

/// Whether the end of a step is a failure that the user is told of.
pub fn is_step_failure(step: Primitive, exit: Exit) -> (r: bool)
    ensures
        r == step_failed(step, exit),
{
    match exit {
        Exit::Success => false,
        Exit::Failure => match step {
            Primitive::HasSession => false,
            _ => true,
        },
        Exit::NotRun => true,
    }
}

/// What the user is told of a step that failed.
pub fn failure_message() -> (r: &'static str)
    ensures
        r@ == "Session failed to open."@,
{
    "Session failed to open."
}

/// The commands issued on the way to a session, from `state` on, when the
/// first of them ends with `exits[0]`, the next with `exits[1]`, and so on.
/// The command that is awaited when the exits run out is issued too.
pub open spec fn issued(backend: Multiplexers, state: OpenState, exits: Seq<Exit>) -> Seq<Primitive>
    decreases exits.len(),
{
    match state {
        OpenState::Finished(_) => Seq::empty(),
        OpenState::Awaiting(step) => if exits.len() == 0 {
            seq![step]
        } else {
            seq![step] + issued(backend, open_next(backend, step, exits[0]), exits.drop_first())
        },
    }
}

/// The state that is reached from `state` when the commands end as `exits` says.
pub open spec fn reached(backend: Multiplexers, state: OpenState, exits: Seq<Exit>) -> OpenState
    decreases exits.len(),
{
    match state {
        OpenState::Finished(_) => state,
        OpenState::Awaiting(step) => if exits.len() == 0 {
            state
        } else {
            reached(backend, open_next(backend, step, exits[0]), exits.drop_first())
        },
    }
}

impl Opening {
    /// Rehearses the attempt from where it stands: the commands awaited end,
    /// one after the other, as `exits` says, and the steps issued are handed
    /// back in their order. No command is run.
    pub fn rehearse(&mut self, exits: &[Exit]) -> (r: Vec<Primitive>)
        ensures
            final(self).backend == old(self).backend,
            final(self).project == old(self).project,
            r@ == issued(old(self).backend, old(self).state, exits@),
            final(self).state == reached(old(self).backend, old(self).state, exits@),
    {
        let mut steps: Vec<Primitive> = Vec::new();
        let mut i: usize = 0;
        assert(exits@.subrange(0, exits@.len() as int) =~= exits@);
        assert(Seq::<Primitive>::empty() + issued(self.backend, self.state, exits@) =~= issued(
            self.backend,
            self.state,
            exits@,
        ));
        while i < exits.len() && self.outcome().is_none()
            invariant
                i <= exits@.len(),
                self.backend == old(self).backend,
                self.project == old(self).project,
                issued(old(self).backend, old(self).state, exits@) == steps@ + issued(
                    self.backend,
                    self.state,
                    exits@.subrange(i as int, exits@.len() as int),
                ),
                reached(old(self).backend, old(self).state, exits@) == reached(
                    self.backend,
                    self.state,
                    exits@.subrange(i as int, exits@.len() as int),
                ),
            decreases exits@.len() - i,
        {
            let ghost rest = exits@.subrange(i as int, exits@.len() as int);
            let ghost before = steps@;
            let ghost state = self.state;
            if let OpenState::Awaiting(step) = self.state {
                steps.push(step);
            }
            self.advance(exits[i]);
            i = i + 1;
            proof {
                assert(rest.drop_first() =~= exits@.subrange(i as int, exits@.len() as int));
                assert(rest[0] == exits@[i - 1]);
                let later = issued(self.backend, self.state, rest.drop_first());
                assert(issued(self.backend, state, rest) == seq![state->Awaiting_0] + later);
                assert(before + (seq![state->Awaiting_0] + later) =~= steps@ + later);
            }
        }
        proof {
            let rest = exits@.subrange(i as int, exits@.len() as int);
            if self.state is Finished {
                assert(steps@ + Seq::<Primitive>::empty() =~= steps@);
            } else {
                assert(rest.len() == 0);
            }
        }
        if let OpenState::Awaiting(step) = self.state {
            assert(steps@.push(step) =~= steps@ + seq![step]);
            steps.push(step);
        }
        steps
    }
}

} // verus!
