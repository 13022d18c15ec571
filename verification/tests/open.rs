use mukduk::command::{CommandOutput, Exit, Invocation};
use mukduk::commands::project::ProjectArgs;
use mukduk::multiplexer::{Multiplexer, Multiplexers, Primitive};
use mukduk::multiplexer::open::{OpenOutcome, OpenState, Opening};
use mukduk::multiplexer::tmux::Tmux;
use mukduk::multiplexer::zellij::Zellij;
use mukduk::project::Project;
use std::path::PathBuf;

fn no_args() -> ProjectArgs {
    ProjectArgs { name: None, project_dir: None }
}

fn site() -> Project {
    Project::new(PathBuf::from("/work/site"), "site".to_string())
}

fn words(command: &Invocation) -> Vec<String> {
    let mut all = vec![command.program.clone()];
    all.extend(command.args.iter().cloned());
    all
}

fn line(words: &[&str]) -> Vec<String> {
    words.iter().map(|w| w.to_string()).collect()
}

/// Runs an attempt against canned exits, one per command in the order issued,
/// and records every command that was issued.
fn drive(mut opening: Opening, exits: &[Exit]) -> (Vec<Vec<String>>, Opening) {
    let mut issued = Vec::new();
    let mut next = 0;
    while let Some(command) = opening.command() {
        issued.push(words(&command));
        assert!(next < exits.len(), "more commands issued than exits canned");
        opening.advance(exits[next]);
        next += 1;
    }
    (issued, opening)
}

#[test]
fn outside_tmux_one_create_or_attach_is_issued() {
    let opening = Tmux::open(&no_args(), site(), false);
    assert_eq!(opening.state, OpenState::Awaiting(Primitive::CreateOrAttach));
    let (issued, end) = drive(opening, &[Exit::Success]);
    assert_eq!(issued, vec![line(&["tmux", "new-session", "-A", "-s", "site", "-c", "/work/site"])]);
    assert_eq!(end.outcome(), Some(OpenOutcome::Opened));
}

#[test]
fn outside_tmux_a_failed_attach_ends_the_attempt() {
    let (issued, end) = drive(Tmux::open(&no_args(), site(), false), &[Exit::Failure]);
    assert_eq!(issued.len(), 1);
    assert_eq!(
        end.outcome(),
        Some(OpenOutcome::Failed { step: Primitive::CreateOrAttach, exit: Exit::Failure })
    );
}

#[test]
fn inside_tmux_an_existing_session_is_switched_to() {
    let (issued, end) = drive(Tmux::open(&no_args(), site(), true), &[Exit::Success, Exit::Success]);
    assert_eq!(
        issued,
        vec![
            line(&["tmux", "has-session", "-t", "=site"]),
            line(&["tmux", "switch-client", "-t", "site"]),
        ]
    );
    assert_eq!(end.outcome(), Some(OpenOutcome::Opened));
}

#[test]
fn inside_tmux_an_absent_session_is_created_then_switched_to() {
    let (issued, end) = drive(
        Tmux::open(&no_args(), site(), true),
        &[Exit::Failure, Exit::Success, Exit::Success],
    );
    assert_eq!(
        issued,
        vec![
            line(&["tmux", "has-session", "-t", "=site"]),
            line(&["tmux", "new-session", "-d", "-s", "site", "-c", "/work/site"]),
            line(&["tmux", "switch-client", "-t", "site"]),
        ]
    );
    assert_eq!(end.outcome(), Some(OpenOutcome::Opened));
}

#[test]
fn inside_tmux_a_failed_creation_issues_no_switch() {
    let (issued, end) = drive(Tmux::open(&no_args(), site(), true), &[Exit::Failure, Exit::Failure]);
    assert_eq!(
        issued,
        vec![
            line(&["tmux", "has-session", "-t", "=site"]),
            line(&["tmux", "new-session", "-d", "-s", "site", "-c", "/work/site"]),
        ]
    );
    assert_eq!(
        end.outcome(),
        Some(OpenOutcome::Failed { step: Primitive::CreateDetached, exit: Exit::Failure })
    );
}

#[test]
fn inside_tmux_a_creation_that_did_not_run_issues_no_switch() {
    let (issued, end) = drive(Tmux::open(&no_args(), site(), true), &[Exit::Failure, Exit::NotRun]);
    assert_eq!(issued.len(), 2);
    assert_eq!(
        end.outcome(),
        Some(OpenOutcome::Failed { step: Primitive::CreateDetached, exit: Exit::NotRun })
    );
}

#[test]
fn a_question_that_did_not_run_ends_the_attempt() {
    let (issued, end) = drive(Tmux::open(&no_args(), site(), true), &[Exit::NotRun]);
    assert_eq!(issued, vec![line(&["tmux", "has-session", "-t", "=site"])]);
    assert_eq!(
        end.outcome(),
        Some(OpenOutcome::Failed { step: Primitive::HasSession, exit: Exit::NotRun })
    );
}

#[test]
fn a_failed_switch_ends_the_attempt() {
    let (issued, end) = drive(Tmux::open(&no_args(), site(), true), &[Exit::Success, Exit::Failure]);
    assert_eq!(issued.len(), 2);
    assert_eq!(
        end.outcome(),
        Some(OpenOutcome::Failed { step: Primitive::Switch, exit: Exit::Failure })
    );
}

#[test]
fn a_finished_attempt_stays_finished() {
    let (_, mut end) = drive(Tmux::open(&no_args(), site(), false), &[Exit::Success]);
    end.advance(Exit::Failure);
    assert_eq!(end.outcome(), Some(OpenOutcome::Opened));
    assert!(end.command().is_none());
}

#[test]
fn an_attempt_under_way_has_no_outcome() {
    let opening = Tmux::open(&no_args(), site(), true);
    assert_eq!(opening.outcome(), None);
}

#[test]
fn outside_zellij_one_attach_is_issued_in_the_project_directory() {
    let opening = Zellij::open(&no_args(), site(), false);
    let command = opening.command().expect("a command is awaited");
    assert_eq!(command.program, "zellij");
    assert_eq!(command.args, line(&["a", "-c", "site"]));
    assert_eq!(command.dir, Some("/work/site".to_string()));
    let (issued, end) = drive(opening, &[Exit::Success]);
    assert_eq!(issued.len(), 1);
    assert_eq!(end.outcome(), Some(OpenOutcome::Opened));
}

#[test]
fn inside_zellij_an_existing_session_is_switched_to() {
    let (issued, end) = drive(Zellij::open(&no_args(), site(), true), &[Exit::Success, Exit::Success]);
    assert_eq!(
        issued,
        vec![line(&["zellij", "ls"]), line(&["zellij", "action", "switch-session", "site"])]
    );
    assert_eq!(end.outcome(), Some(OpenOutcome::Opened));
}

#[test]
fn inside_zellij_an_absent_session_is_created_then_switched_to() {
    let opening = Zellij::open(&no_args(), site(), true);
    assert_eq!(opening.state, OpenState::Awaiting(Primitive::HasSession));
    let (issued, end) = drive(opening, &[Exit::Failure, Exit::Success, Exit::Success]);
    assert_eq!(
        issued,
        vec![
            line(&["zellij", "ls"]),
            line(&["zellij", "attach", "--create-background", "site"]),
            line(&["zellij", "action", "switch-session", "site"]),
        ]
    );
    assert_eq!(end.outcome(), Some(OpenOutcome::Opened));
}

#[test]
fn inside_zellij_a_failed_creation_issues_no_switch() {
    let (issued, end) = drive(Zellij::open(&no_args(), site(), true), &[Exit::Failure, Exit::Failure]);
    assert_eq!(issued.len(), 2);
    assert_eq!(
        end.outcome(),
        Some(OpenOutcome::Failed { step: Primitive::CreateDetached, exit: Exit::Failure })
    );
}

#[test]
fn inside_zellij_the_listing_answers_the_question() {
    let listed = |stdout: &str| {
        Some(CommandOutput { success: true, stdout: stdout.to_string(), stderr: String::new() })
    };
    let mut opening = Zellij::open(&no_args(), site(), true);
    assert_eq!(opening.verdict(&listed("other\nsite\n")), Exit::Success);
    assert_eq!(opening.verdict(&listed("other\nsite2\n")), Exit::Failure);
    assert_eq!(opening.verdict(&None), Exit::NotRun);
    let none = Some(CommandOutput {
        success: false,
        stdout: String::new(),
        stderr: "No active zellij sessions found.".to_string(),
    });
    assert_eq!(opening.verdict(&none), Exit::Failure);
    let broken = Some(CommandOutput { success: false, stdout: String::new(), stderr: "boom".to_string() });
    assert_eq!(opening.verdict(&broken), Exit::NotRun);
    opening.advance(opening.verdict(&listed("site")));
    assert_eq!(opening.state, OpenState::Awaiting(Primitive::Switch));
    assert_eq!(opening.verdict(&broken), Exit::Failure);
    assert_eq!(opening.verdict(&listed("")), Exit::Success);
}

#[test]
fn in_tmux_every_command_ends_as_its_program_did() {
    let ran = |success| Some(CommandOutput { success, stdout: "site\n".to_string(), stderr: String::new() });
    let mut opening = Tmux::open(&no_args(), site(), true);
    assert_eq!(opening.verdict(&ran(true)), Exit::Success);
    assert_eq!(opening.verdict(&ran(false)), Exit::Failure);
    assert_eq!(opening.verdict(&None), Exit::NotRun);
    opening.advance(Exit::Success);
    opening.advance(Exit::Success);
    assert_eq!(opening.outcome(), Some(OpenOutcome::Opened));
    assert_eq!(opening.verdict(&ran(false)), Exit::Failure);
}

#[test]
fn outside_zellij_a_failed_attach_is_reported() {
    let (_, end) = drive(Zellij::open(&no_args(), site(), false), &[Exit::NotRun]);
    assert_eq!(
        end.outcome(),
        Some(OpenOutcome::Failed { step: Primitive::CreateOrAttach, exit: Exit::NotRun })
    );
}

#[test]
fn the_selector_opens_with_the_backend_it_names() {
    let tmux = Multiplexers::Tmux.open(&no_args(), site(), true);
    assert_eq!(tmux.backend, Multiplexers::Tmux);
    assert_eq!(tmux.state, OpenState::Awaiting(Primitive::HasSession));
    assert_eq!(tmux.project, site());
    let zellij = Multiplexers::Zellij.open(&no_args(), site(), true);
    assert_eq!(zellij.backend, Multiplexers::Zellij);
    assert_eq!(zellij.state, OpenState::Awaiting(Primitive::HasSession));
    let outside = Multiplexers::Zellij.open(&no_args(), site(), false);
    assert_eq!(outside.state, OpenState::Awaiting(Primitive::CreateOrAttach));
}

#[test]
fn the_step_functions_agree_with_the_attempt() {
    assert_eq!(
        Tmux::open_next(Primitive::HasSession, Exit::Success),
        OpenState::Awaiting(Primitive::Switch)
    );
    assert_eq!(
        Tmux::open_next(Primitive::HasSession, Exit::Failure),
        OpenState::Awaiting(Primitive::CreateDetached)
    );
    assert_eq!(
        Tmux::open_next(Primitive::CreateDetached, Exit::Success),
        OpenState::Awaiting(Primitive::Switch)
    );
    assert_eq!(
        Zellij::open_next(Primitive::Switch, Exit::Success),
        OpenState::Finished(OpenOutcome::Opened)
    );
    assert_eq!(
        Zellij::open_next(Primitive::HasSession, Exit::Failure),
        OpenState::Awaiting(Primitive::CreateDetached)
    );
    assert_eq!(
        Zellij::open_next(Primitive::HasSession, Exit::NotRun),
        OpenState::Finished(OpenOutcome::Failed { step: Primitive::HasSession, exit: Exit::NotRun })
    );
    assert_eq!(
        Zellij::open_next(Primitive::CreateOrAttach, Exit::Success),
        OpenState::Finished(OpenOutcome::Opened)
    );
}

#[test]
fn a_project_is_opened_again_with_the_same_commands() {
    let first = drive(Tmux::open(&no_args(), site(), true), &[Exit::Success, Exit::Success]);
    let second = drive(Tmux::open(&no_args(), site(), true), &[Exit::Success, Exit::Success]);
    assert_eq!(first.0, second.0);
    assert_eq!(first.1.outcome(), second.1.outcome());
}

#[test]
fn a_rehearsal_issues_what_the_attempt_would() {
    let mut opening = Tmux::open(&no_args(), site(), true);
    let steps = opening.rehearse(&[Exit::Failure, Exit::Success, Exit::Success]);
    assert_eq!(steps, vec![Primitive::HasSession, Primitive::CreateDetached, Primitive::Switch]);
    assert_eq!(opening.outcome(), Some(OpenOutcome::Opened));
    assert_eq!(opening.project, site());

    let mut opening = Tmux::open(&no_args(), site(), false);
    let steps = opening.rehearse(&[Exit::Success, Exit::Failure, Exit::NotRun]);
    assert_eq!(steps, vec![Primitive::CreateOrAttach]);
    assert_eq!(opening.outcome(), Some(OpenOutcome::Opened));
}

#[test]
fn a_rehearsal_that_runs_out_of_exits_stops_at_the_command_awaited() {
    let mut opening = Tmux::open(&no_args(), site(), true);
    assert_eq!(opening.rehearse(&[]), vec![Primitive::HasSession]);
    assert_eq!(opening.state, OpenState::Awaiting(Primitive::HasSession));
    assert_eq!(opening.rehearse(&[Exit::Success]), vec![Primitive::HasSession, Primitive::Switch]);
    assert_eq!(opening.state, OpenState::Awaiting(Primitive::Switch));
    assert_eq!(opening.rehearse(&[Exit::Success]), vec![Primitive::Switch]);
    assert_eq!(opening.outcome(), Some(OpenOutcome::Opened));
    assert_eq!(opening.rehearse(&[Exit::Success]), Vec::new());
}

#[test]
fn a_rehearsal_inside_zellij_issues_the_same_steps_as_inside_tmux() {
    for exits in [
        vec![Exit::Success, Exit::Success],
        vec![Exit::Failure, Exit::Success, Exit::Success],
        vec![Exit::Failure, Exit::NotRun],
        vec![Exit::NotRun],
    ] {
        let mut zellij = Zellij::open(&no_args(), site(), true);
        let mut tmux = Tmux::open(&no_args(), site(), true);
        assert_eq!(zellij.rehearse(&exits), tmux.rehearse(&exits));
        assert_eq!(zellij.outcome(), tmux.outcome());
    }
}
