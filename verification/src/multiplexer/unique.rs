//! Opening a numbered session: that of the lowest digit that is free.

use crate::command::{exit_of, exit_of_run, CommandOutput, Exit, Invocation, InvocationView};
use crate::multiplexer::open::{command_for, verdict_of};
use crate::multiplexer::tmux::Tmux;
use crate::multiplexer::zellij::Zellij;
use crate::paths::text_or_empty;
use crate::multiplexer::{Multiplexers, Primitive};
use crate::project::Project;
use std::path::PathBuf;
use vstd::prelude::*;

verus! {

/// How an attempt to open a numbered session ended.
#[derive(Copy, Clone, Debug, PartialEq, Eq, Structural)]
pub enum UniqueOutcome {
    /// The user is in the session of this digit.
    Opened(u8),
    /// No digit was free, or none could be created: no session was opened.
    NoneAvailable,
    /// The command of this step, for this digit, ended the attempt.
    Failed { step: Primitive, digit: u8, exit: Exit },
}

/// Where an attempt to open a numbered session stands.
#[derive(Copy, Clone, Debug, PartialEq, Eq, Structural)]
pub enum UniqueState {
    /// This command, for the session of this digit, is to be issued.
    Awaiting { step: Primitive, digit: u8 },
    /// Nothing more is to be issued.
    Finished(UniqueOutcome),
}

/// The name of the session of a digit.
pub open spec fn digit_text(digit: u8) -> Seq<char> {
    match digit {
        0 => "0"@,
        1 => "1"@,
        2 => "2"@,
        3 => "3"@,
        4 => "4"@,
        5 => "5"@,
        6 => "6"@,
        7 => "7"@,
        8 => "8"@,
        9 => "9"@,
        _ => Seq::empty(),
    }
}

/// The name of the session of a digit.
pub fn digit_name(digit: u8) -> (r: String)
    ensures
        r@ == digit_text(digit),
{
    match digit {
        0 => "0".to_owned(),
        1 => "1".to_owned(),
        2 => "2".to_owned(),
        3 => "3".to_owned(),
        4 => "4".to_owned(),
        5 => "5".to_owned(),
        6 => "6".to_owned(),
        7 => "7".to_owned(),
        8 => "8".to_owned(),
        9 => "9".to_owned(),
        _ => String::new(),
    }
}

/// The first step towards a numbered session, in every multiplexer: to ask
/// for the session `0`.
pub open spec fn unique_start(backend: Multiplexers) -> UniqueState {
    UniqueState::Awaiting { step: Primitive::HasSession, digit: 0 }
}

/// What follows once the digit `digit` is given up: the question for the
/// next one, or the end where it was the last.
pub open spec fn after_digit(digit: u8) -> UniqueState {
    if digit < 9 {
        UniqueState::Awaiting { step: Primitive::HasSession, digit: (digit + 1) as u8 }
    } else {
        UniqueState::Finished(UniqueOutcome::NoneAvailable)
    }
}

/// What follows the command `step` for the digit `digit`, which ended with
/// `exit`. A digit in use is passed over; a free one is created and switched
/// to; one that cannot be created is passed over too. A command that did not
/// run ends the attempt, and so does a session that cannot be entered.
pub open spec fn unique_next(step: Primitive, digit: u8, exit: Exit) -> UniqueState {
    match (step, exit) {
        (_, Exit::NotRun) => UniqueState::Finished(UniqueOutcome::Failed { step, digit, exit }),
        (Primitive::HasSession, Exit::Success) => after_digit(digit),
        (Primitive::HasSession, Exit::Failure) => UniqueState::Awaiting {
            step: Primitive::CreateDetached,
            digit,
        },
        (Primitive::CreateDetached, Exit::Success) => UniqueState::Awaiting {
            step: Primitive::Switch,
            digit,
        },
        (Primitive::CreateDetached, Exit::Failure) => after_digit(digit),
        (_, Exit::Success) => UniqueState::Finished(UniqueOutcome::Opened(digit)),
        (_, Exit::Failure) => UniqueState::Finished(UniqueOutcome::Failed { step, digit, exit }),
    }
}

fn pass_over(digit: u8) -> (r: UniqueState)
    ensures
        r == after_digit(digit),
{
    if digit < 9 {
        UniqueState::Awaiting { step: Primitive::HasSession, digit: digit + 1 }
    } else {
        UniqueState::Finished(UniqueOutcome::NoneAvailable)
    }
}

/// Says what follows the command `step` for the digit `digit`, which ended
/// with `exit`.
pub fn unique_step(step: Primitive, digit: u8, exit: Exit) -> (r: UniqueState)
    ensures
        r == unique_next(step, digit, exit),
{
    match exit {
        Exit::NotRun => UniqueState::Finished(UniqueOutcome::Failed { step, digit, exit }),
        Exit::Success => match step {
            Primitive::HasSession => pass_over(digit),
            Primitive::CreateDetached => UniqueState::Awaiting { step: Primitive::Switch, digit },
            _ => UniqueState::Finished(UniqueOutcome::Opened(digit)),
        },
        Exit::Failure => match step {
            Primitive::HasSession => UniqueState::Awaiting {
                step: Primitive::CreateDetached,
                digit,
            },
            Primitive::CreateDetached => pass_over(digit),
            _ => UniqueState::Finished(UniqueOutcome::Failed { step, digit, exit }),
        },
    }
}

/// An attempt to open the session of the lowest free digit, in the
/// directory `home`.
#[derive(Debug, PartialEq, Eq)]
pub struct Allocation {
    pub backend: Multiplexers,
    pub home: PathBuf,
    pub state: UniqueState,
}

impl Allocation {
    /// The state after the awaited command ended with `exit`. An attempt that
    /// has finished stays as it is.
    pub open spec fn advanced(self, exit: Exit) -> UniqueState {
        match self.state {
            UniqueState::Awaiting { step, digit } => unique_next(step, digit, exit),
            UniqueState::Finished(_) => self.state,
        }
    }

    /// The command to run now, as mathematical text: that of the awaited
    /// step, for the session named by the digit, in the home directory.
    pub open spec fn pending(self) -> Option<InvocationView> {
        match self.state {
            UniqueState::Awaiting { step, digit } => if digit <= 9 {
                Some(command_for(self.backend, step, digit_text(digit), text_or_empty(self.home)))
            } else {
                None
            },
            UniqueState::Finished(_) => None,
        }
    }

    /// An attempt is well formed when there is a command for the step that
    /// it awaits: when the number that it stands at is a digit. Every
    /// attempt that `unique_session` begins is, and stays so.
    pub open spec fn wf(self) -> bool {
        self.state is Awaiting ==> self.pending() is Some
    }

    /// The command to run now. There is none once the attempt has finished.
    pub fn command(&self) -> (r: Option<Invocation>)
        ensures
            match self.pending() {
                Some(v) => r matches Some(c) && c@ == v,
                None => r is None,
            },
            self.wf() ==> (r is Some <==> self.state is Awaiting),
    {
        match self.state {
            UniqueState::Awaiting { step, digit } => {
                if digit <= 9 {
                    let project = Project { path: self.home.clone(), name: digit_name(digit) };
                    match self.backend {
                        Multiplexers::Tmux => Some(Tmux::invocation(step, &project)),
                        Multiplexers::Zellij => Some(Zellij::invocation(step, &project)),
                    }
                } else {
                    None
                }
            },
            UniqueState::Finished(_) => None,
        }
    }

    /// Says how the awaited command ended, as `advance` takes it, from what
    /// the command left behind; `None` stands for a command that did not
    /// run. For an attempt that has finished it is how the program ended.
    pub fn verdict(&self, run: &Option<CommandOutput>) -> (r: Exit)
        ensures
            r == match self.state {
                UniqueState::Awaiting { step, digit } => verdict_of(
                    self.backend,
                    step,
                    digit_text(digit),
                    *run,
                ),
                UniqueState::Finished(_) => exit_of_run(*run),
            },
    {
        match self.state {
            UniqueState::Awaiting { step, digit } => match self.backend {
                Multiplexers::Tmux => exit_of(run),
                Multiplexers::Zellij => Zellij::verdict(step, digit_name(digit).as_str(), run),
            },
            UniqueState::Finished(_) => exit_of(run),
        }
    }

    /// Takes in how the awaited command ended, and moves on.
    pub fn advance(&mut self, exit: Exit)
        ensures
            final(self).backend == old(self).backend,
            final(self).home == old(self).home,
            final(self).state == old(self).advanced(exit),
            old(self).wf() ==> final(self).wf(),
    {
        match self.state {
            UniqueState::Awaiting { step, digit } => {
                self.state = unique_step(step, digit, exit);
            },
            UniqueState::Finished(_) => {},
        }
    }

    /// How the attempt ended, once it has.
    pub fn outcome(&self) -> (r: Option<UniqueOutcome>)
        ensures
            r == match self.state {
                UniqueState::Awaiting { .. } => None,
                UniqueState::Finished(outcome) => Some(outcome),
            },
    {
        match self.state {
            UniqueState::Awaiting { .. } => None,
            UniqueState::Finished(outcome) => Some(outcome),
        }
    }
}

/// The commands issued on the way to a numbered session, each with the digit
/// it is for, from `state` on, when they end as `exits` says.
pub open spec fn unique_issued(state: UniqueState, exits: Seq<Exit>) -> Seq<(Primitive, u8)>
    decreases exits.len(),
{
    match state {
        UniqueState::Finished(_) => Seq::empty(),
        UniqueState::Awaiting { step, digit } => if exits.len() == 0 {
            seq![(step, digit)]
        } else {
            seq![(step, digit)] + unique_issued(
                unique_next(step, digit, exits[0]),
                exits.drop_first(),
            )
        },
    }
}

/// The state that is reached from `state` when the commands end as `exits` says.
pub open spec fn unique_reached(state: UniqueState, exits: Seq<Exit>) -> UniqueState
    decreases exits.len(),
{
    match state {
        UniqueState::Finished(_) => state,
        UniqueState::Awaiting { step, digit } => if exits.len() == 0 {
            state
        } else {
            unique_reached(unique_next(step, digit, exits[0]), exits.drop_first())
        },
    }
}

impl Allocation {
    /// Rehearses the attempt from where it stands: the commands awaited end,
    /// one after the other, as `exits` says, and the steps issued are handed
    /// back in their order, each with its digit. No command is run.
    pub fn rehearse(&mut self, exits: &[Exit]) -> (r: Vec<(Primitive, u8)>)
        ensures
            final(self).backend == old(self).backend,
            final(self).home == old(self).home,
            r@ == unique_issued(old(self).state, exits@),
            final(self).state == unique_reached(old(self).state, exits@),
            old(self).wf() ==> final(self).wf(),
    {
        let mut steps: Vec<(Primitive, u8)> = Vec::new();
        let mut i: usize = 0;
        assert(exits@.subrange(0, exits@.len() as int) =~= exits@);
        assert(Seq::<(Primitive, u8)>::empty() + unique_issued(self.state, exits@)
            =~= unique_issued(self.state, exits@));
        while i < exits.len() && self.outcome().is_none()
            invariant
                i <= exits@.len(),
                self.backend == old(self).backend,
                self.home == old(self).home,
                old(self).wf() ==> self.wf(),
                unique_issued(old(self).state, exits@) == steps@ + unique_issued(
                    self.state,
                    exits@.subrange(i as int, exits@.len() as int),
                ),
                unique_reached(old(self).state, exits@) == unique_reached(
                    self.state,
                    exits@.subrange(i as int, exits@.len() as int),
                ),
            decreases exits@.len() - i,
        {
            let ghost rest = exits@.subrange(i as int, exits@.len() as int);
            let ghost before = steps@;
            let ghost state = self.state;
            if let UniqueState::Awaiting { step, digit } = self.state {
                steps.push((step, digit));
            }
            self.advance(exits[i]);
            i = i + 1;
            proof {
                assert(rest.drop_first() =~= exits@.subrange(i as int, exits@.len() as int));
                assert(rest[0] == exits@[i - 1]);
                let later = unique_issued(self.state, rest.drop_first());
                let issued_now = (state->step, state->digit);
                assert(unique_issued(state, rest) == seq![issued_now] + later);
                assert(before + (seq![issued_now] + later) =~= steps@ + later);
            }
        }
        proof {
            let rest = exits@.subrange(i as int, exits@.len() as int);
            if self.state is Finished {
                assert(steps@ + Seq::<(Primitive, u8)>::empty() =~= steps@);
            } else {
                assert(rest.len() == 0);
            }
        }
        if let UniqueState::Awaiting { step, digit } = self.state {
            assert(steps@.push((step, digit)) =~= steps@ + seq![(step, digit)]);
            steps.push((step, digit));
        }
        steps
    }
}

} // verus!
