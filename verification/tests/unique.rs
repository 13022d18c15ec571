use mukduk::command::{CommandOutput, Exit, Invocation};
use mukduk::multiplexer::zellij::Zellij;
use mukduk::multiplexer::tmux::Tmux;
use mukduk::multiplexer::{Multiplexer, Multiplexers, Primitive};
use mukduk::multiplexer::unique::{digit_name, unique_step, Allocation, UniqueOutcome, UniqueState};
use std::path::PathBuf;

fn words(command: &Invocation) -> Vec<String> {
    let mut all = vec![command.program.clone()];
    all.extend(command.args.iter().cloned());
    all
}

fn line(words: &[&str]) -> Vec<String> {
    words.iter().map(|w| w.to_string()).collect()
}

/// Runs an attempt against a multiplexer in which the sessions `in_use`
/// exist, creation succeeds unless the name is in `uncreatable`, and every
/// switch succeeds. Records every command issued.
fn drive(mut attempt: Allocation, in_use: &[&str], uncreatable: &[&str]) -> (Vec<Vec<String>>, Allocation) {
    let mut issued = Vec::new();
    while let Some(command) = attempt.command() {
        let said = words(&command);
        let exit = match said[1].as_str() {
            "has-session" => {
                let name = said[3].trim_start_matches('=').to_string();
                if in_use.contains(&name.as_str()) { Exit::Success } else { Exit::Failure }
            }
            "new-session" => {
                if uncreatable.contains(&said[4].as_str()) { Exit::Failure } else { Exit::Success }
            }
            _ => Exit::Success,
        };
        issued.push(said);
        attempt.advance(exit);
        assert!(issued.len() <= 40, "the attempt does not end");
    }
    (issued, attempt)
}

fn home() -> PathBuf {
    PathBuf::from("/home/me")
}

#[test]
fn with_no_session_the_digit_zero_is_opened() {
    let (issued, end) = drive(Tmux::unique_session(home()), &[], &[]);
    assert_eq!(
        issued,
        vec![
            line(&["tmux", "has-session", "-t", "=0"]),
            line(&["tmux", "new-session", "-d", "-s", "0", "-c", "/home/me"]),
            line(&["tmux", "switch-client", "-t", "0"]),
        ]
    );
    assert_eq!(end.outcome(), Some(UniqueOutcome::Opened(0)));
}

#[test]
fn with_zero_to_eight_in_use_nine_is_opened() {
    let in_use = ["0", "1", "2", "3", "4", "5", "6", "7", "8"];
    let (issued, end) = drive(Tmux::unique_session(home()), &in_use, &[]);
    assert_eq!(issued.len(), 12);
    for (digit, said) in issued.iter().take(10).enumerate() {
        assert_eq!(said, &line(&["tmux", "has-session", "-t", &format!("={digit}")]));
    }
    assert_eq!(issued[10], line(&["tmux", "new-session", "-d", "-s", "9", "-c", "/home/me"]));
    assert_eq!(issued[11], line(&["tmux", "switch-client", "-t", "9"]));
    assert_eq!(end.outcome(), Some(UniqueOutcome::Opened(9)));
}

#[test]
fn with_all_ten_in_use_nothing_is_created_or_switched_to() {
    let in_use = ["0", "1", "2", "3", "4", "5", "6", "7", "8", "9"];
    let (issued, end) = drive(Tmux::unique_session(home()), &in_use, &[]);
    assert_eq!(issued.len(), 10);
    assert!(issued.iter().all(|said| said[1] == "has-session"));
    assert_eq!(end.outcome(), Some(UniqueOutcome::NoneAvailable));
}

#[test]
fn the_lowest_free_digit_is_taken_not_the_first_after_the_highest() {
    let (issued, end) = drive(Tmux::unique_session(home()), &["0", "1", "3"], &[]);
    assert_eq!(issued.len(), 5);
    assert_eq!(end.outcome(), Some(UniqueOutcome::Opened(2)));
}

#[test]
fn a_digit_that_cannot_be_created_is_passed_over() {
    let (issued, end) = drive(Tmux::unique_session(home()), &["0"], &["1"]);
    assert_eq!(
        issued,
        vec![
            line(&["tmux", "has-session", "-t", "=0"]),
            line(&["tmux", "has-session", "-t", "=1"]),
            line(&["tmux", "new-session", "-d", "-s", "1", "-c", "/home/me"]),
            line(&["tmux", "has-session", "-t", "=2"]),
            line(&["tmux", "new-session", "-d", "-s", "2", "-c", "/home/me"]),
            line(&["tmux", "switch-client", "-t", "2"]),
        ]
    );
    assert_eq!(end.outcome(), Some(UniqueOutcome::Opened(2)));
}

#[test]
fn where_no_digit_can_be_created_none_is_opened() {
    let none = ["0", "1", "2", "3", "4", "5", "6", "7", "8", "9"];
    let (issued, end) = drive(Tmux::unique_session(home()), &[], &none);
    assert_eq!(issued.len(), 20);
    assert!(issued.iter().all(|said| said[1] != "switch-client"));
    assert_eq!(end.outcome(), Some(UniqueOutcome::NoneAvailable));
}

#[test]
fn a_question_for_a_digit_that_did_not_run_ends_the_attempt() {
    let mut attempt = Tmux::unique_session(home());
    attempt.advance(Exit::NotRun);
    assert_eq!(
        attempt.outcome(),
        Some(UniqueOutcome::Failed { step: Primitive::HasSession, digit: 0, exit: Exit::NotRun })
    );
    assert!(attempt.command().is_none());
}

#[test]
fn a_failed_switch_to_a_digit_ends_the_attempt() {
    let mut attempt = Tmux::unique_session(home());
    attempt.advance(Exit::Failure);
    attempt.advance(Exit::Success);
    assert_eq!(attempt.state, UniqueState::Awaiting { step: Primitive::Switch, digit: 0 });
    attempt.advance(Exit::Failure);
    assert_eq!(
        attempt.outcome(),
        Some(UniqueOutcome::Failed { step: Primitive::Switch, digit: 0, exit: Exit::Failure })
    );
}

#[test]
fn zellij_opens_the_lowest_free_digit_too() {
    let mut attempt = Multiplexers::Zellij.unique_session(home());
    assert_eq!(attempt.backend, Multiplexers::Zellij);
    assert_eq!(attempt.state, UniqueState::Awaiting { step: Primitive::HasSession, digit: 0 });
    let ran = |stdout: &str| {
        Some(CommandOutput { success: true, stdout: stdout.to_string(), stderr: String::new() })
    };
    let mut issued = Vec::new();
    while let Some(command) = attempt.command() {
        let said = words(&command);
        let run = if said[1] == "ls" { ran("0\n1\nmain\n") } else { ran("") };
        issued.push(said);
        let exit = attempt.verdict(&run);
        attempt.advance(exit);
        assert!(issued.len() <= 40, "the attempt does not end");
    }
    assert_eq!(
        issued,
        vec![
            line(&["zellij", "ls"]),
            line(&["zellij", "ls"]),
            line(&["zellij", "ls"]),
            line(&["zellij", "attach", "--create-background", "2"]),
            line(&["zellij", "action", "switch-session", "2"]),
        ]
    );
    assert_eq!(attempt.outcome(), Some(UniqueOutcome::Opened(2)));
}

#[test]
fn numbered_zellij_sessions_are_created_in_the_home_directory() {
    let mut attempt = Zellij::unique_session(home());
    attempt.advance(Exit::Failure);
    let command = attempt.command().expect("a creation is awaited");
    assert_eq!(command.args, line(&["attach", "--create-background", "0"]));
    assert_eq!(command.dir, Some("/home/me".to_string()));
}

#[test]
fn the_selector_starts_tmux_with_the_question_for_zero() {
    let attempt = Multiplexers::Tmux.unique_session(home());
    assert_eq!(attempt.backend, Multiplexers::Tmux);
    assert_eq!(attempt.home, home());
    assert_eq!(attempt.state, UniqueState::Awaiting { step: Primitive::HasSession, digit: 0 });
}

#[test]
fn the_step_function_passes_from_nine_to_the_end() {
    assert_eq!(
        Tmux::unique_next(Primitive::HasSession, 9, Exit::Success),
        UniqueState::Finished(UniqueOutcome::NoneAvailable)
    );
    assert_eq!(
        Tmux::unique_next(Primitive::HasSession, 4, Exit::Success),
        UniqueState::Awaiting { step: Primitive::HasSession, digit: 5 }
    );
    assert_eq!(
        Tmux::unique_next(Primitive::CreateDetached, 9, Exit::Failure),
        UniqueState::Finished(UniqueOutcome::NoneAvailable)
    );
}

#[test]
fn digits_are_named_by_their_numeral() {
    let names: Vec<String> = (0u8..10).map(digit_name).collect();
    assert_eq!(names, line(&["0", "1", "2", "3", "4", "5", "6", "7", "8", "9"]));
    assert_eq!(digit_name(10), "");
}

#[test]
fn an_attempt_with_a_number_that_is_no_digit_has_no_command() {
    assert_eq!(unique_step(Primitive::HasSession, 12, Exit::Success), UniqueState::Finished(UniqueOutcome::NoneAvailable));
    let attempt = Allocation {
        backend: Multiplexers::Tmux,
        home: home(),
        state: UniqueState::Awaiting { step: Primitive::HasSession, digit: 12 },
    };
    assert!(attempt.command().is_none());
}

#[test]
fn a_rehearsal_with_nine_digits_in_use_opens_the_last() {
    let mut exits = vec![Exit::Success; 9];
    exits.extend([Exit::Failure, Exit::Success, Exit::Success]);
    let mut attempt = Tmux::unique_session(home());
    let steps = attempt.rehearse(&exits);
    let mut expected: Vec<(Primitive, u8)> = (0u8..10).map(|d| (Primitive::HasSession, d)).collect();
    expected.push((Primitive::CreateDetached, 9));
    expected.push((Primitive::Switch, 9));
    assert_eq!(steps, expected);
    assert_eq!(attempt.outcome(), Some(UniqueOutcome::Opened(9)));
    assert_eq!(attempt.home, home());
}

#[test]
fn a_rehearsal_with_all_digits_in_use_asks_ten_questions() {
    let mut attempt = Tmux::unique_session(home());
    let steps = attempt.rehearse(&vec![Exit::Success; 15]);
    let expected: Vec<(Primitive, u8)> = (0u8..10).map(|d| (Primitive::HasSession, d)).collect();
    assert_eq!(steps, expected);
    assert_eq!(attempt.outcome(), Some(UniqueOutcome::NoneAvailable));
}

#[test]
fn a_rehearsal_of_numbered_sessions_is_the_same_in_zellij() {
    let exits = [Exit::Success, Exit::Failure, Exit::Failure, Exit::Failure, Exit::Success, Exit::Success];
    let mut zellij = Multiplexers::Zellij.unique_session(home());
    let mut tmux = Multiplexers::Tmux.unique_session(home());
    assert_eq!(zellij.rehearse(&exits), tmux.rehearse(&exits));
    assert_eq!(zellij.outcome(), Some(UniqueOutcome::Opened(2)));
    assert_eq!(tmux.outcome(), Some(UniqueOutcome::Opened(2)));
}

#[test]
fn the_commands_are_the_same_however_the_switch_ends() {
    for last in [Exit::Success, Exit::Failure, Exit::NotRun] {
        let mut attempt = Tmux::unique_session(home());
        let steps = attempt.rehearse(&[Exit::Success, Exit::Failure, Exit::Success, last]);
        assert_eq!(
            steps,
            vec![
                (Primitive::HasSession, 0),
                (Primitive::HasSession, 1),
                (Primitive::CreateDetached, 1),
                (Primitive::Switch, 1),
            ]
        );
    }
}
