//! Commands for outside programs, as plain values: what to run, and what
//! came back from a run.

use crate::text::{chars_of, string_of, trim, trim_of, views};
use vstd::prelude::*;

verus! {

/// How a run of an outside program ended.
#[derive(Clone, Copy, Debug, PartialEq, Eq, Structural)]
pub enum Exit {
    /// The program ran and reported success.
    Success,
    /// The program ran and reported failure.
    Failure,
    /// The program could not be started, or could not be waited for.
    NotRun,
}

/// A program to run, its arguments in order, and the directory to run it in.
#[derive(Debug, PartialEq, Eq)]
pub struct Invocation {
    pub program: String,
    pub args: Vec<String>,
    pub dir: Option<String>,
}

/// What an invocation says, as mathematical text.
pub struct InvocationView {
    pub program: Seq<char>,
    pub args: Seq<Seq<char>>,
    pub dir: Option<Seq<char>>,
}

impl View for Invocation {
    type V = InvocationView;

    open spec fn view(&self) -> InvocationView {
        InvocationView {
            program: self.program@,
            args: views(self.args@),
            dir: match self.dir {
                Some(d) => Some(d@),
                None => None,
            },
        }
    }
}

/// What a program that ran left behind.
#[derive(Debug, PartialEq, Eq)]
pub struct CommandOutput {
    pub success: bool,
    pub stdout: String,
    pub stderr: String,
}

impl CommandOutput {
    /// How the run ended.
    pub fn exit(&self) -> (r: Exit)
        ensures
            r == if self.success { Exit::Success } else { Exit::Failure },
    {
        if self.success {
            Exit::Success
        } else {
            Exit::Failure
        }
    }
}

/// How a run ended, where `None` stands for a program that did not run.
pub open spec fn exit_of_run(run: Option<CommandOutput>) -> Exit {
    match run {
        None => Exit::NotRun,
        Some(output) => if output.success { Exit::Success } else { Exit::Failure },
    }
}

/// How a run ended.
pub fn exit_of(run: &Option<CommandOutput>) -> (r: Exit)
    ensures
        r == exit_of_run(*run),
{
    match run {
        None => Exit::NotRun,
        Some(output) => output.exit(),
    }
}

/// Why an outside program gave no answer.
#[derive(Debug, PartialEq, Eq)]
pub enum ToolError {
    /// The program could not be run.
    Unavailable,
    /// The program failed, with this complaint.
    Unexpected(String),
}

/// What to tell the user of a run.
#[derive(Debug, PartialEq, Eq)]
pub enum Diagnostic {
    /// Information: what a successful program printed.
    Info(String),
    /// A warning: what a program wrote as its complaint.
    Warn(String),
    /// An error: something that was asked for did not happen.
    Error(String),
}

/// The diagnostic owed for a run, as mathematical text: `Some((true, t))` for
/// information `t`, `Some((false, t))` for a warning `t`.
pub open spec fn diagnostic_of(success: bool, stdout: Seq<char>, stderr: Seq<char>) -> Option<
    (bool, Seq<char>),
> {
    if success && stdout.len() > 0 {
        Some((true, trim_of(stdout)))
    } else if stderr.len() > 0 {
        Some((false, trim_of(stderr)))
    } else {
        None
    }
}

/// Decides what to tell the user of a run: the trimmed output of a program
/// that succeeded and printed something; else its trimmed complaint, where
/// there is one; else nothing.
pub fn wrap_command(output: &CommandOutput) -> (r: Option<Diagnostic>)
    ensures
        match diagnostic_of(output.success, output.stdout@, output.stderr@) {
            Some((true, t)) => r matches Some(Diagnostic::Info(s)) && s@ == t,
            Some((false, t)) => r matches Some(Diagnostic::Warn(s)) && s@ == t,
            None => r is None,
        },
{
    let out = chars_of(output.stdout.as_str());
    let err = chars_of(output.stderr.as_str());
    if output.success && out.len() > 0 {
        Some(Diagnostic::Info(string_of(&trim(&out))))
    } else if err.len() > 0 {
        Some(Diagnostic::Warn(string_of(&trim(&err))))
    } else {
        None
    }
}

} // verus!
