//! What holds of whole attempts: of the commands that are issued, one after
//! the other, when each ends as a given sequence of exits says.

use crate::command::{CommandOutput, Exit};
use crate::multiplexer::open::{
    issued, open_next, open_start, reached, verdict_of, OpenOutcome, OpenState,
};
use crate::multiplexer::unique::{
    unique_issued, unique_next, unique_reached, unique_start, UniqueOutcome, UniqueState,
};
use crate::multiplexer::{Multiplexers, Primitive};
use crate::text::split_on;
use vstd::prelude::*;

verus! {

/// How many commands a state still leads to, at most.
pub open spec fn steps_left(state: OpenState) -> nat {
    match state {
        OpenState::Finished(_) => 0,
        OpenState::Awaiting(Primitive::HasSession) => 3,
        OpenState::Awaiting(Primitive::CreateDetached) => 2,
        OpenState::Awaiting(_) => 1,
    }
}

/// Outside the multiplexer, whether or not the session exists, and however
/// the command ends: one command to create or enter the session is issued,
/// and no question for the session, no switch and nothing else.
pub proof fn lemma_outside_one_command_is_issued(backend: Multiplexers, exits: Seq<Exit>)
    requires
        exits.len() >= 1,
    ensures
        issued(backend, open_start(backend, false), exits) == seq![Primitive::CreateOrAttach],
        reached(backend, open_start(backend, false), exits) is Finished,
        exits[0] == Exit::Success ==> reached(backend, open_start(backend, false), exits)
            == OpenState::Finished(OpenOutcome::Opened),
{
    let next = open_next(backend, Primitive::CreateOrAttach, exits[0]);
    assert(next is Finished);
    assert(issued(backend, next, exits.drop_first()) == Seq::<Primitive>::empty());
    assert(reached(backend, next, exits.drop_first()) == next);
    assert(seq![Primitive::CreateOrAttach] + Seq::<Primitive>::empty() =~= seq![
        Primitive::CreateOrAttach,
    ]);
}

/// Inside the multiplexer, where the session exists: the question for it,
/// then the switch to it, and no command that creates anything.
pub proof fn lemma_existing_session_is_switched_to(backend: Multiplexers, exits: Seq<Exit>)
    requires
        exits.len() >= 2,
        exits[0] == Exit::Success,
    ensures
        issued(backend, open_start(backend, true), exits) == seq![
            Primitive::HasSession,
            Primitive::Switch,
        ],
        exits[1] == Exit::Success ==> reached(backend, open_start(backend, true), exits)
            == OpenState::Finished(OpenOutcome::Opened),
{
    let rest = exits.drop_first();
    assert(rest[0] == exits[1]);
    let end = open_next(backend, Primitive::Switch, rest[0]);
    assert(end is Finished);
    assert(issued(backend, end, rest.drop_first()) == Seq::<Primitive>::empty());
    assert(reached(backend, end, rest.drop_first()) == end);
    assert(issued(backend, OpenState::Awaiting(Primitive::Switch), rest) =~= seq![
        Primitive::Switch,
    ]);
    assert(reached(backend, OpenState::Awaiting(Primitive::Switch), rest) == end);
    assert(seq![Primitive::HasSession] + seq![Primitive::Switch] =~= seq![
        Primitive::HasSession,
        Primitive::Switch,
    ]);
}

/// Inside the multiplexer, where the session is absent and can be created:
/// the question for it, its creation, then the switch to it, in that order.
pub proof fn lemma_absent_session_is_created_then_switched_to(
    backend: Multiplexers,
    exits: Seq<Exit>,
)
    requires
        exits.len() >= 3,
        exits[0] == Exit::Failure,
        exits[1] == Exit::Success,
    ensures
        issued(backend, open_start(backend, true), exits) == seq![
            Primitive::HasSession,
            Primitive::CreateDetached,
            Primitive::Switch,
        ],
        exits[2] == Exit::Success ==> reached(backend, open_start(backend, true), exits)
            == OpenState::Finished(OpenOutcome::Opened),
{
    let rest = exits.drop_first();
    let last = rest.drop_first();
    assert(rest[0] == exits[1]);
    assert(last[0] == exits[2]);
    let end = open_next(backend, Primitive::Switch, last[0]);
    assert(end is Finished);
    assert(issued(backend, end, last.drop_first()) == Seq::<Primitive>::empty());
    assert(reached(backend, end, last.drop_first()) == end);
    assert(issued(backend, OpenState::Awaiting(Primitive::Switch), last) =~= seq![
        Primitive::Switch,
    ]);
    assert(reached(backend, OpenState::Awaiting(Primitive::Switch), last) == end);
    assert(reached(backend, OpenState::Awaiting(Primitive::CreateDetached), rest) == end);
    assert(issued(backend, OpenState::Awaiting(Primitive::CreateDetached), rest) =~= seq![
        Primitive::CreateDetached,
        Primitive::Switch,
    ]);
    assert(seq![Primitive::HasSession] + seq![Primitive::CreateDetached, Primitive::Switch] =~= seq![
        Primitive::HasSession,
        Primitive::CreateDetached,
        Primitive::Switch,
    ]);
}

/// Inside the multiplexer, where the session is absent and cannot be
/// created: the attempt ends with the creation, and no switch is issued.
pub proof fn lemma_failed_creation_ends_the_attempt(backend: Multiplexers, exits: Seq<Exit>)
    requires
        exits.len() >= 2,
        exits[0] == Exit::Failure,
        exits[1] != Exit::Success,
    ensures
        issued(backend, open_start(backend, true), exits) == seq![
            Primitive::HasSession,
            Primitive::CreateDetached,
        ],
        reached(backend, open_start(backend, true), exits) == OpenState::Finished(
            OpenOutcome::Failed { step: Primitive::CreateDetached, exit: exits[1] },
        ),
{
    let rest = exits.drop_first();
    assert(rest[0] == exits[1]);
    let end = open_next(backend, Primitive::CreateDetached, rest[0]);
    assert(end is Finished);
    assert(issued(backend, end, rest.drop_first()) == Seq::<Primitive>::empty());
    assert(reached(backend, end, rest.drop_first()) == end);
    assert(reached(backend, OpenState::Awaiting(Primitive::CreateDetached), rest) == end);
    assert(issued(backend, OpenState::Awaiting(Primitive::CreateDetached), rest) =~= seq![
        Primitive::CreateDetached,
    ]);
    assert(seq![Primitive::HasSession] + seq![Primitive::CreateDetached] =~= seq![
        Primitive::HasSession,
        Primitive::CreateDetached,
    ]);
}

/// Inside zellij the listing answers the question for a session: where a
/// listing that succeeded holds the name on a line of its own, the session
/// is switched to; where it does not, the session is created first.
pub proof fn lemma_listing_answers_the_question(name: Seq<char>, output: CommandOutput)
    requires
        name.len() > 0,
        output.success,
    ensures
        open_next(
            Multiplexers::Zellij,
            Primitive::HasSession,
            verdict_of(Multiplexers::Zellij, Primitive::HasSession, name, Some(output)),
        ) == OpenState::Awaiting(
            if split_on(output.stdout@, '\n').contains(name) {
                Primitive::Switch
            } else {
                Primitive::CreateDetached
            },
        ),
{
}

/// A command that did not succeed ends the attempt with that command named,
/// the question for the session aside, which a refusal answers. Nothing is
/// tried again.
pub proof fn lemma_failure_is_terminal(backend: Multiplexers, step: Primitive, exit: Exit)
    requires
        exit != Exit::Success,
        !(step == Primitive::HasSession && exit == Exit::Failure),
    ensures
        open_next(backend, step, exit) == OpenState::Finished(OpenOutcome::Failed { step, exit }),
{
}

/// Every step leaves fewer steps to come: an attempt issues three commands
/// at most, from whatever state and however they end.
pub proof fn lemma_attempt_is_bounded(backend: Multiplexers, state: OpenState, exits: Seq<Exit>)
    ensures
        issued(backend, state, exits).len() <= steps_left(state),
        exits.len() >= steps_left(state) ==> reached(backend, state, exits) is Finished,
    decreases exits.len(),
{
    match state {
        OpenState::Finished(_) => {},
        OpenState::Awaiting(step) => {
            if exits.len() > 0 {
                lemma_attempt_is_bounded(
                    backend,
                    open_next(backend, step, exits[0]),
                    exits.drop_first(),
                );
            }
        },
    }
}

/// The questions for the sessions of the digits from `from` up to `to`, in order.
pub open spec fn questions(from: int, to: int) -> Seq<(Primitive, u8)> {
    Seq::new((to - from) as nat, |i: int| (Primitive::HasSession, (from + i) as u8))
}

/// From the question for `from` on, with the digits up to `free` in use and
/// `free` not: the questions up to `free`, then its creation and the switch,
/// however the switch ends; and where it ends well, the session is open.
pub proof fn lemma_free_digit_from(from: u8, free: u8, exits: Seq<Exit>)
    requires
        from <= free <= 9,
        exits.len() >= free - from + 2,
        forall|i: int| 0 <= i < free - from ==> exits[i] == Exit::Success,
        exits[free - from] == Exit::Failure,
        exits[free - from + 1] == Exit::Success,
    ensures
        unique_issued(UniqueState::Awaiting { step: Primitive::HasSession, digit: from }, exits)
            == questions(from as int, free + 1) + seq![
            (Primitive::CreateDetached, free),
            (Primitive::Switch, free),
        ],
        exits.len() >= free - from + 3 && exits[free - from + 2] == Exit::Success
            ==> unique_reached(
            UniqueState::Awaiting { step: Primitive::HasSession, digit: from },
            exits,
        ) == UniqueState::Finished(UniqueOutcome::Opened(free)),
    decreases free - from,
{
    let start = UniqueState::Awaiting { step: Primitive::HasSession, digit: from };
    let tail = seq![(Primitive::CreateDetached, free), (Primitive::Switch, free)];
    let rest = exits.drop_first();
    if from == free {
        let last = rest.drop_first();
        assert(rest[0] == exits[1]);
        let created = UniqueState::Awaiting { step: Primitive::CreateDetached, digit: free };
        let entered = UniqueState::Awaiting { step: Primitive::Switch, digit: free };
        if last.len() > 0 {
            assert(last[0] == exits[2]);
            let end = unique_next(Primitive::Switch, free, last[0]);
            assert(end is Finished);
            assert(unique_issued(end, last.drop_first()) == Seq::<(Primitive, u8)>::empty());
            assert(unique_reached(end, last.drop_first()) == end);
            assert(unique_reached(entered, last) == end);
        }
        assert(unique_issued(entered, last) =~= seq![(Primitive::Switch, free)]);
        assert(unique_next(Primitive::CreateDetached, free, rest[0]) == entered);
        assert(unique_issued(created, rest) =~= tail);
        assert(unique_reached(created, rest) == unique_reached(entered, last));
        assert(unique_next(Primitive::HasSession, from, exits[0]) == created);
        assert(unique_issued(start, exits) =~= questions(from as int, free + 1) + tail);
    } else {
        let next_digit = (from + 1) as u8;
        let next = UniqueState::Awaiting { step: Primitive::HasSession, digit: next_digit };
        assert(unique_next(Primitive::HasSession, from, exits[0]) == next);
        assert forall|i: int| 0 <= i < free - next_digit implies rest[i] == Exit::Success by {
            assert(rest[i] == exits[i + 1]);
        }
        assert(rest[free - next_digit] == exits[free - from]);
        assert(rest[free - next_digit + 1] == exits[free - from + 1]);
        if exits.len() >= free - from + 3 {
            assert(rest[free - next_digit + 2] == exits[free - from + 2]);
        }
        lemma_free_digit_from(next_digit, free, rest);
        assert(unique_issued(start, exits) =~= questions(from as int, free + 1) + tail);
    }
}

/// From the question for `from` on, with all the digits from there in use:
/// the questions for them, and nothing else.
pub proof fn lemma_no_free_digit_from(from: u8, exits: Seq<Exit>)
    requires
        from <= 9,
        exits.len() >= 10 - from,
        forall|i: int| 0 <= i < 10 - from ==> exits[i] == Exit::Success,
    ensures
        unique_issued(UniqueState::Awaiting { step: Primitive::HasSession, digit: from }, exits)
            == questions(from as int, 10),
        unique_reached(UniqueState::Awaiting { step: Primitive::HasSession, digit: from }, exits)
            == UniqueState::Finished(UniqueOutcome::NoneAvailable),
    decreases 9 - from,
{
    let start = UniqueState::Awaiting { step: Primitive::HasSession, digit: from };
    let rest = exits.drop_first();
    if from == 9 {
        let end = UniqueState::Finished(UniqueOutcome::NoneAvailable);
        assert(unique_next(Primitive::HasSession, from, exits[0]) == end);
        assert(unique_issued(end, rest) == Seq::<(Primitive, u8)>::empty());
        assert(unique_reached(end, rest) == end);
        assert(unique_issued(start, exits) =~= questions(from as int, 10));
    } else {
        let next_digit = (from + 1) as u8;
        let next = UniqueState::Awaiting { step: Primitive::HasSession, digit: next_digit };
        assert(unique_next(Primitive::HasSession, from, exits[0]) == next);
        assert forall|i: int| 0 <= i < 10 - next_digit implies rest[i] == Exit::Success by {
            assert(rest[i] == exits[i + 1]);
        }
        lemma_no_free_digit_from(next_digit, rest);
        assert(unique_issued(start, exits) =~= questions(from as int, 10));
    }
}

/// The session that is opened is that of the lowest free digit, in every
/// multiplexer: with the digits below `free` in use and `free` not, each of
/// those is asked for, then `free` is created and switched to, and no other
/// command is issued, however the switch ends. Where it ends well, the
/// session of `free` is open.
pub proof fn lemma_lowest_free_digit_is_opened(backend: Multiplexers, free: u8, exits: Seq<Exit>)
    requires
        free <= 9,
        exits.len() >= free + 2,
        forall|i: int| 0 <= i < free ==> exits[i] == Exit::Success,
        exits[free as int] == Exit::Failure,
        exits[free + 1] == Exit::Success,
    ensures
        unique_issued(unique_start(backend), exits) == questions(0, free + 1) + seq![
            (Primitive::CreateDetached, free),
            (Primitive::Switch, free),
        ],
        exits.len() >= free + 3 && exits[free + 2] == Exit::Success ==> unique_reached(
            unique_start(backend),
            exits,
        ) == UniqueState::Finished(UniqueOutcome::Opened(free)),
{
    lemma_free_digit_from(0, free, exits);
}

/// With all ten digits in use, in every multiplexer, the ten questions are
/// all that is issued: nothing is created or switched to, and the attempt
/// ends without an error.
pub proof fn lemma_all_digits_in_use(backend: Multiplexers, exits: Seq<Exit>)
    requires
        exits.len() >= 10,
        forall|i: int| 0 <= i < 10 ==> exits[i] == Exit::Success,
    ensures
        unique_issued(unique_start(backend), exits) == questions(0, 10),
        forall|i: int|
            0 <= i < 10 ==> (#[trigger] unique_issued(unique_start(backend), exits)[i]).0
                == Primitive::HasSession,
        unique_reached(unique_start(backend), exits) == UniqueState::Finished(
            UniqueOutcome::NoneAvailable,
        ),
{
    lemma_no_free_digit_from(0, exits);
}

/// How many commands a state of a numbered attempt still leads to, at most:
/// a question and a creation for each digit that is left, and one switch.
pub open spec fn numbered_steps_left(state: UniqueState) -> nat {
    match state {
        UniqueState::Finished(_) => 0,
        UniqueState::Awaiting { step, digit } => {
            let later: nat = if digit <= 9 { (9 - digit) as nat } else { 0 };
            match step {
                Primitive::HasSession => 2 * later + 3,
                Primitive::CreateDetached => 2 * later + 2,
                _ => 1,
            }
        },
    }
}

/// Every step leaves fewer steps to come: a numbered attempt issues
/// twenty-one commands at most, and then it has ended.
pub proof fn lemma_numbered_attempt_is_bounded(state: UniqueState, exits: Seq<Exit>)
    ensures
        unique_issued(state, exits).len() <= numbered_steps_left(state) <= 21,
        exits.len() >= numbered_steps_left(state) ==> unique_reached(state, exits) is Finished,
    decreases exits.len(),
{
    match state {
        UniqueState::Finished(_) => {},
        UniqueState::Awaiting { step, digit } => {
            if exits.len() > 0 {
                lemma_numbered_attempt_is_bounded(
                    unique_next(step, digit, exits[0]),
                    exits.drop_first(),
                );
            }
        },
    }
}

} // verus!
