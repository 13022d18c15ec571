//! Ending sessions: what to report of each attempt.

use crate::command::{Diagnostic, Exit};
use vstd::prelude::*;
use vstd::string::StringExecFns;

verus! {

/// How the attempt to end one session went.
#[derive(Copy, Clone, Debug, PartialEq, Eq, Structural)]
pub enum KillOutcome {
    /// The session was ended.
    Killed,
    /// The multiplexer refused: it has no such session.
    NotFound,
    /// The multiplexer could not be run.
    Error,
}

/// What to report of an attempt to end a session, given how the command
/// ended.
pub open spec fn kill_outcome(exit: Exit) -> KillOutcome {
    match exit {
        Exit::Success => KillOutcome::Killed,
        Exit::Failure => KillOutcome::NotFound,
        Exit::NotRun => KillOutcome::Error,
    }
}

/// Decides what to report of an attempt to end a session.
pub fn kill_outcome_of(exit: Exit) -> (r: KillOutcome)
    ensures
        r == kill_outcome(exit),
{
    match exit {
        Exit::Success => KillOutcome::Killed,
        Exit::Failure => KillOutcome::NotFound,
        Exit::NotRun => KillOutcome::Error,
    }
}

/// The reports for the commands that ended with `exits`, one for each and
/// in their order.
pub open spec fn kill_outcomes(exits: Seq<Exit>) -> Seq<KillOutcome> {
    Seq::new(exits.len(), |i: int| kill_outcome(exits[i]))
}

/// One report per command that ended, each by the exit of its own command
/// alone: a command that failed changes no report but its own.
pub fn kill_report(exits: &[Exit]) -> (r: Vec<KillOutcome>)
    ensures
        r@ == kill_outcomes(exits@),
{
    let mut out: Vec<KillOutcome> = Vec::new();
    let mut i: usize = 0;
    while i < exits.len()
        invariant
            i <= exits@.len(),
            out@.len() == i,
            forall|j: int| 0 <= j < i ==> out@[j] == kill_outcome(exits@[j]),
        decreases exits@.len() - i,
    {
        out.push(kill_outcome_of(exits[i]));
        i = i + 1;
    }
    assert(out@ =~= kill_outcomes(exits@));
    out
}

/// What the user is told of the attempt to end the session `name`.
pub open spec fn kill_notice_text(name: Seq<char>, outcome: KillOutcome) -> Seq<char> {
    match outcome {
        KillOutcome::Killed => "Killed "@ + name + "."@,
        KillOutcome::NotFound => "No session "@ + name + " to kill."@,
        KillOutcome::Error => "Error while killing "@ + name + "."@,
    }
}

/// What the user is told of the attempt to end the session `name`: that it
/// was ended, as information; that there is no such session, as a warning;
/// or that the multiplexer could not be asked, as an error.
pub fn kill_notice(name: &str, outcome: KillOutcome) -> (r: Diagnostic)
    ensures
        match outcome {
            KillOutcome::Killed => r matches Diagnostic::Info(t) && t@ == kill_notice_text(
                name@,
                outcome,
            ),
            KillOutcome::NotFound => r matches Diagnostic::Warn(t) && t@ == kill_notice_text(
                name@,
                outcome,
            ),
            KillOutcome::Error => r matches Diagnostic::Error(t) && t@ == kill_notice_text(
                name@,
                outcome,
            ),
        },
{
    match outcome {
        KillOutcome::Killed => Diagnostic::Info("Killed ".to_owned().concat(name).concat(".")),
        KillOutcome::NotFound => Diagnostic::Warn(
            "No session ".to_owned().concat(name).concat(" to kill."),
        ),
        KillOutcome::Error => Diagnostic::Error(
            "Error while killing ".to_owned().concat(name).concat("."),
        ),
    }
}

/// What the user is told where no session was picked: a warning; nothing
/// where some were.
pub fn declined_notice(sessions: &[String]) -> (r: Option<Diagnostic>)
    ensures
        sessions@.len() > 0 ==> r is None,
        sessions@.len() == 0 ==> (r matches Some(Diagnostic::Warn(t)) && t@
            == "No session picked"@),
{
    if sessions.len() == 0 {
        Some(Diagnostic::Warn("No session picked".to_owned()))
    } else {
        None
    }
}

} // verus!
