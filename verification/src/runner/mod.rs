//! Running the actions of one document, in order.

pub mod error;
pub mod executor;
pub mod file;
pub mod laws;
pub mod script;
pub mod state;
pub mod verify;

pub use error::Error;

use crate::results::test_result::{TestResult, TestResultView};
use crate::text::views;
use crate::types::{Action, ActionView};
use error::ErrorView;
use executor::{words, Executor, Launcher, OutputView, Shell};
use file::FileWriter;
use state::{State, StateView};
use vstd::prelude::*;
use vstd::string::*;

verus! {

/// One step of a run's observable timeline.
#[derive(Debug, PartialEq, Eq)]
pub enum RunEvent {
    /// The run of the document at this path began.
    SpecFileStarted(String),
    /// A script ran, or a stream was compared.
    TestCompleted(TestResult),
    /// The run ended; `success` tells whether every test passed and
    /// nothing went wrong.
    SpecFileCompleted { success: bool },
    /// The run could not go on.
    ErrorOccurred(Error),
}

/// What a `RunEvent` stands for in specifications.
pub enum RunEventView {
    SpecFileStarted(Seq<char>),
    TestCompleted(TestResultView),
    SpecFileCompleted { success: bool },
    ErrorOccurred(ErrorView),
}

impl View for RunEvent {
    type V = RunEventView;

    open spec fn view(&self) -> RunEventView {
        match self {
            RunEvent::SpecFileStarted(path) => RunEventView::SpecFileStarted(path@),
            RunEvent::TestCompleted(result) => RunEventView::TestCompleted(result@),
            RunEvent::SpecFileCompleted { success } => RunEventView::SpecFileCompleted {
                success: *success,
            },
            RunEvent::ErrorOccurred(error) => RunEventView::ErrorOccurred(error@),
        }
    }
}

impl Clone for RunEvent {
    fn clone(&self) -> (copy: Self)
        ensures
            copy == *self,
    {
        match self {
            RunEvent::SpecFileStarted(path) => RunEvent::SpecFileStarted(path.clone()),
            RunEvent::TestCompleted(result) => RunEvent::TestCompleted(result.clone()),
            RunEvent::SpecFileCompleted { success } => RunEvent::SpecFileCompleted {
                success: *success,
            },
            RunEvent::ErrorOccurred(error) => RunEvent::ErrorOccurred(error.clone()),
        }
    }
}

/// What the executor and the file writer answer when an action turns to
/// them. An action reads the answer that it asks for and no other.
pub struct Reply {
    /// What the executor answers to a script.
    pub executed: Result<OutputView, ErrorView>,
    /// What the file writer answers to a file.
    pub written: Result<(), Seq<char>>,
}

/// What the outcome of an action stands for in specifications.
pub open spec fn outcome_view(result: Result<Option<TestResult>, Error>) -> Result<
    Option<TestResultView>,
    ErrorView,
> {
    match result {
        Ok(Some(test)) => Ok(Some(test@)),
        Ok(None) => Ok(None),
        Err(error) => Err(error@),
    }
}

/// What an event or error stands for in specifications.
pub open spec fn event_view(result: Result<Option<RunEvent>, Error>) -> Result<
    Option<RunEventView>,
    ErrorView,
> {
    match result {
        Ok(Some(event)) => Ok(Some(event@)),
        Ok(None) => Ok(None),
        Err(error) => Err(error@),
    }
}

/// What one action comes to in the state `state`, given the answers of the
/// executor and the file writer. A script and a comparison give a test; a
/// file that was written gives none. A script that could not be run, a
/// comparison with a script that has not run and a file that could not be
/// written give an error.
pub open spec fn action_outcome(action: ActionView, state: StateView, reply: Reply) -> Result<
    Option<TestResultView>,
    ErrorView,
> {
    match action {
        ActionView::Script { name, code, expected_exit_code } => match script::script_outcome(
            name,
            expected_exit_code,
            reply.executed,
        ) {
            Ok(test) => Ok(Some(test)),
            Err(error) => Err(error),
        },
        ActionView::Verify { source, expected_value } => match verify::verify_outcome(
            source,
            expected_value,
            state,
        ) {
            Ok(test) => Ok(Some(test)),
            Err(error) => Err(error),
        },
        ActionView::CreateFile { path, content } => match file::write_outcome(
            path,
            reply.written,
        ) {
            Ok(()) => Ok(None),
            Err(error) => Err(error),
        },
    }
}

/// The event that one action gives, and the state after it. A test is
/// recorded in the state; an error leaves the state as it was.
pub open spec fn after_action(state: StateView, action: ActionView, reply: Reply) -> (
    Result<Option<RunEventView>, ErrorView>,
    StateView,
) {
    match action_outcome(action, state, reply) {
        Ok(Some(test)) => (Ok(Some(RunEventView::TestCompleted(test))), state.record(test)),
        Ok(None) => (Ok(None), state),
        Err(error) => (Err(error), state),
    }
}

/// How far a run has come.
pub struct Progress {
    /// The events of the actions so far.
    pub events: Seq<RunEventView>,
    /// The state after the actions so far.
    pub state: StateView,
    /// Whether an error has ended the run.
    pub halted: bool,
}

/// The progress after one more action. A run that an error has ended goes
/// no further. An error is reported as an event, ends the success and ends
/// the run.
pub open spec fn step(before: Progress, action: ActionView, reply: Reply) -> Progress {
    if before.halted {
        before
    } else {
        match after_action(before.state, action, reply) {
            (Ok(Some(event)), state) => Progress {
                events: before.events.push(event),
                state,
                halted: false,
            },
            (Ok(None), state) => Progress { events: before.events, state, halted: false },
            (Err(error), state) => Progress {
                events: before.events.push(RunEventView::ErrorOccurred(error)),
                state: state.failed(),
                halted: true,
            },
        }
    }
}

/// The progress of a run that starts in the state `start` and takes the
/// actions in order, where action `i` gets the answers `replies[i]`.
pub open spec fn progress(start: StateView, actions: Seq<ActionView>, replies: Seq<Reply>) -> Progress
    decreases actions.len(),
{
    if actions.len() == 0 {
        Progress { events: Seq::empty(), state: start, halted: false }
    } else {
        step(
            progress(start, actions.drop_last(), replies),
            actions.last(),
            replies[actions.len() - 1],
        )
    }
}

/// Whether a run from `start` over `actions`, with one pair of answers for
/// each action, gives `events` and ends in the state `end`.
pub open spec fn reaches(
    start: StateView,
    actions: Seq<ActionView>,
    replies: Seq<Reply>,
    events: Seq<RunEventView>,
    end: StateView,
) -> bool {
    &&& replies.len() == actions.len()
    &&& progress(start, actions, replies).events == events
    &&& progress(start, actions, replies).state == end
}

/// The events of the run of one document: the start, the events of its
/// actions up to the first error, and the end, which tells whether every
/// test passed and no error occurred.
pub open spec fn run_events(spec_file: Seq<char>, actions: Seq<ActionView>, replies: Seq<Reply>) -> Seq<
    RunEventView,
> {
    let end = progress(StateView::empty(), actions, replies);
    seq![RunEventView::SpecFileStarted(spec_file)] + end.events
        + seq![RunEventView::SpecFileCompleted { success: end.state.success }]
}

/// The events of the run of one document under the shell command
/// `command`. A command without a word is refused before any action: the
/// run starts, reports the error, and ends without success. Under any
/// other command the events are those of the actions.
pub open spec fn shell_events(
    spec_file: Seq<char>,
    actions: Seq<ActionView>,
    command: Seq<char>,
    replies: Seq<Reply>,
) -> Seq<RunEventView> {
    if words(command).len() == 0 {
        seq![
            RunEventView::SpecFileStarted(spec_file),
            RunEventView::ErrorOccurred(ErrorView::BadShellCommand { command }),
            RunEventView::SpecFileCompleted { success: false },
        ]
    } else {
        run_events(spec_file, actions, replies)
    }
}

/// Whether a run from `start` over `actions` under the shell command
/// `command` gives `events` and ends in the state `end`. A command without
/// a word gives its error alone and ends the success, and no action is
/// run.
pub open spec fn shell_reaches(
    start: StateView,
    actions: Seq<ActionView>,
    command: Seq<char>,
    replies: Seq<Reply>,
    events: Seq<RunEventView>,
    end: StateView,
) -> bool {
    if words(command).len() == 0 {
        &&& replies.len() == actions.len()
        &&& events == seq![RunEventView::ErrorOccurred(ErrorView::BadShellCommand { command })]
        &&& end == start.failed()
    } else {
        reaches(start, actions, replies, events, end)
    }
}

/// The progress of a run depends on the answers to its own actions only.
pub proof fn lemma_progress_agrees(
    start: StateView,
    actions: Seq<ActionView>,
    first: Seq<Reply>,
    second: Seq<Reply>,
)
    requires
        forall|i: int| 0 <= i < actions.len() ==> first[i] == second[i],
    ensures
        progress(start, actions, first) == progress(start, actions, second),
    decreases actions.len(),
{
    if actions.len() > 0 {
        lemma_progress_agrees(start, actions.drop_last(), first, second);
    }
}

/// A run that an error has ended stays where it is, whatever follows.
pub proof fn lemma_progress_halted(
    start: StateView,
    actions: Seq<ActionView>,
    replies: Seq<Reply>,
    k: int,
)
    requires
        0 <= k <= actions.len(),
        progress(start, actions.take(k), replies).halted,
    ensures
        progress(start, actions, replies) == progress(start, actions.take(k), replies),
    decreases actions.len(),
{
    if k < actions.len() {
        assert(actions.drop_last().take(k) == actions.take(k));
        lemma_progress_halted(start, actions.drop_last(), replies, k);
    } else {
        assert(actions.take(k) == actions);
    }
}

/// Runs the actions of the document `spec_file` in order under the shell
/// command `shell_command`, and reports what happened. The launcher
/// starts the shell, the writer creates the files. The command is split
/// before any action: where it has no word, the run reports that and
/// ends, no script is run and no file is written. Otherwise the events
/// are those of a run in which the shell and the writer gave some answers,
/// one pair for each action.
pub fn run_actions<L: Launcher, W: FileWriter>(
    spec_file: &str,
    actions: &[Action],
    shell_command: &str,
    launcher: &L,
    writer: &W,
) -> (events: Vec<RunEvent>)
    ensures
        exists|replies: Seq<Reply>|
            replies.len() == actions@.len() && views(events@) == #[trigger] shell_events(
                spec_file@,
                views(actions@),
                shell_command@,
                replies,
            ),
{
    let mut events: Vec<RunEvent> = Vec::new();
    let first = RunEvent::SpecFileStarted(String::from_str(spec_file));
    events.push(first);
    let mut state = State::new();
    let mut run_events = run_all_actions(actions, shell_command, launcher, writer, &mut state);
    let ghost replies = choose|replies: Seq<Reply>| #[trigger]
        shell_reaches(
            StateView::empty(),
            views(actions@),
            shell_command@,
            replies,
            views(run_events@),
            state@,
        );
    let ghost middle = views(run_events@);
    assert(views(events@) == seq![RunEventView::SpecFileStarted(spec_file@)]);
    events.append(&mut run_events);
    assert(views(events@) == seq![RunEventView::SpecFileStarted(spec_file@)] + middle);
    let ghost before = views(events@);
    let last = RunEvent::SpecFileCompleted { success: state.is_success() };
    events.push(last);
    assert(views(events@) == before.push(last@));
    assert(before.push(last@) == before + seq![last@]);
    assert(views(events@) == shell_events(
        spec_file@,
        views(actions@),
        shell_command@,
        replies,
    ));
    events
}

/// Runs the actions of the document `spec_file` in order, and reports
/// what happened. The executor runs the scripts, the writer creates the
/// files. The events are those of a run in which the two gave some
/// answers, one pair for each action.
pub fn run_actions_with<E: Executor, W: FileWriter>(
    spec_file: &str,
    actions: &[Action],
    executor: &E,
    writer: &W,
) -> (events: Vec<RunEvent>)
    ensures
        exists|replies: Seq<Reply>|
            replies.len() == actions@.len() && views(events@) == #[trigger] run_events(
                spec_file@,
                views(actions@),
                replies,
            ),
{
    let mut events: Vec<RunEvent> = Vec::new();
    let first = RunEvent::SpecFileStarted(String::from_str(spec_file));
    events.push(first);
    let mut state = State::new();
    let mut run_events = run_all_actions_with(actions, executor, writer, &mut state);
    let ghost replies = choose|replies: Seq<Reply>| #[trigger]
        reaches(StateView::empty(), views(actions@), replies, views(run_events@), state@);
    let ghost middle = views(run_events@);
    assert(views(events@) == seq![RunEventView::SpecFileStarted(spec_file@)]);
    events.append(&mut run_events);
    assert(views(events@) == seq![RunEventView::SpecFileStarted(spec_file@)] + middle);
    let ghost before = views(events@);
    let last = RunEvent::SpecFileCompleted { success: state.is_success() };
    events.push(last);
    assert(views(events@) == before.push(last@));
    assert(before.push(last@) == before + seq![last@]);
    assert(views(events@) == self::run_events(spec_file@, views(actions@), replies));
    events
}

/// Runs the actions in order under the shell command `shell_command`,
/// from the state `state` on and up to the first error, and hands back
/// their events. A command without a word gives its error alone, and no
/// action is run. Otherwise the events and the state at the end are those
/// of a run in which the shell and the writer gave some answers.
pub fn run_all_actions<L: Launcher, W: FileWriter>(
    actions: &[Action],
    shell_command: &str,
    launcher: &L,
    writer: &W,
    state: &mut State,
) -> (events: Vec<RunEvent>)
    ensures
        exists|replies: Seq<Reply>| #[trigger]
            shell_reaches(
                old(state)@,
                views(actions@),
                shell_command@,
                replies,
                views(events@),
                final(state)@,
            ),
{
    match Shell::new(shell_command, launcher) {
        Err(error) => {
            state.fail();
            let event = RunEvent::ErrorOccurred(error);
            let events = vec![event];
            proof {
                let replies = Seq::new(
                    actions@.len(),
                    |i: int|
                        Reply {
                            executed: Err(ErrorView::BadShellCommand { command: shell_command@ }),
                            written: Ok(()),
                        },
                );
                assert(views(events@) == seq![event@]);
                assert(shell_reaches(
                    old(state)@,
                    views(actions@),
                    shell_command@,
                    replies,
                    views(events@),
                    state@,
                ));
            }
            events
        },
        Ok(shell) => {
            let events = run_all_actions_with(actions, &shell, writer, state);
            proof {
                let replies = choose|replies: Seq<Reply>| #[trigger]
                    reaches(old(state)@, views(actions@), replies, views(events@), state@);
                assert(shell_reaches(
                    old(state)@,
                    views(actions@),
                    shell_command@,
                    replies,
                    views(events@),
                    state@,
                ));
            }
            events
        },
    }
}

/// Runs the actions in order from the state `state` on, up to the first
/// error, and hands back their events. The events and the state at the end
/// are those of a run in which the executor and the writer gave some
/// answers.
pub fn run_all_actions_with<E: Executor, W: FileWriter>(
    actions: &[Action],
    executor: &E,
    writer: &W,
    state: &mut State,
) -> (events: Vec<RunEvent>)
    ensures
        exists|replies: Seq<Reply>| #[trigger]
            reaches(old(state)@, views(actions@), replies, views(events@), final(state)@),
{
    let ghost start = state@;
    let ghost all = views(actions@);
    let ghost mut replies: Seq<Reply> = Seq::empty();
    let mut events: Vec<RunEvent> = Vec::new();
    let mut i: usize = 0;
    assert(views(events@) == Seq::<RunEventView>::empty());
    while i < actions.len()
        invariant
            0 <= i <= actions.len(),
            all == views(actions@),
            start == old(state)@,
            replies.len() == i,
            progress(start, all.take(i as int), replies) == (Progress {
                events: views(events@),
                state: state@,
                halted: false,
            }),
        decreases actions.len() - i,
    {
        let ghost before_state = state@;
        let ghost before_events = views(events@);
        let result = run_single_action(state, executor, writer, &actions[i]);
        proof {
            let reply = choose|reply: Reply|
                (event_view(result), state@) == #[trigger] after_action(
                    before_state,
                    actions[i as int]@,
                    reply,
                );
            let longer = replies.push(reply);
            lemma_progress_agrees(start, all.take(i as int), replies, longer);
            assert(all.take(i + 1).drop_last() == all.take(i as int));
            assert(all.take(i + 1).last() == actions[i as int]@);
            replies = longer;
        }
        match result {
            Ok(Some(event)) => {
                events.push(event);
                assert(views(events@) == before_events.push(event@));
            },
            Ok(None) => {},
            Err(error) => {
                let event = RunEvent::ErrorOccurred(error);
                events.push(event);
                assert(views(events@) == before_events.push(event@));
                state.fail();
                proof {
                    let rest = Seq::new((actions.len() - i - 1) as nat, |j: int| replies[0]);
                    let padded = replies + rest;
                    lemma_progress_agrees(start, all.take(i + 1), replies, padded);
                    lemma_progress_halted(start, all, padded, i + 1);
                    assert(padded.len() == actions@.len());
                    assert(reaches(start, all, padded, views(events@), state@));
                }
                return events;
            },
        }
        i += 1;
    }
    proof {
        assert(all.take(i as int) == all);
        assert(reaches(start, all, replies, views(events@), state@));
    }
    events
}

/// Runs one action and records its test in `state`. The event and the
/// state afterwards are those of some answers of the executor and the
/// writer.
pub fn run_single_action<E: Executor, W: FileWriter>(
    state: &mut State,
    executor: &E,
    writer: &W,
    action: &Action,
) -> (result: Result<Option<RunEvent>, Error>)
    ensures
        exists|reply: Reply|
            (event_view(result), final(state)@) == #[trigger] after_action(
                old(state)@,
                action@,
                reply,
            ),
{
    let outcome = run_action(action, state, executor, writer);
    let ghost reply = choose|reply: Reply|
        outcome_view(outcome) == #[trigger] action_outcome(action@, state@, reply);
    let ghost before = state@;
    let result = match outcome {
        Ok(Some(test)) => {
            state.add_result(&test);
            Ok(Some(RunEvent::TestCompleted(test)))
        },
        Ok(None) => Ok(None),
        Err(error) => Err(error),
    };
    assert((event_view(result), state@) == after_action(before, action@, reply));
    result
}

/// Carries out one action: runs a script, compares a stream, or creates a
/// file. The outcome is that of some answers of the executor and the
/// writer.
pub fn run_action<E: Executor, W: FileWriter>(
    action: &Action,
    state: &State,
    executor: &E,
    writer: &W,
) -> (result: Result<Option<TestResult>, Error>)
    ensures
        exists|reply: Reply|
            outcome_view(result) == #[trigger] action_outcome(action@, state@, reply),
{
    match action {
        Action::Script { name, code, expected_exit_code } => {
            let outcome = script::run(name, code.as_str(), expected_exit_code, executor);
            let ghost executed = choose|executed: Result<OutputView, ErrorView>|
                crate::text::result_view(outcome) == #[trigger] script::script_outcome(
                    name@,
                    *expected_exit_code,
                    executed,
                );
            let result = match outcome {
                Ok(test) => Ok(Some(test)),
                Err(error) => Err(error),
            };
            assert(outcome_view(result) == action_outcome(
                action@,
                state@,
                Reply { executed, written: Ok(()) },
            ));
            result
        },
        Action::Verify { source, expected_value } => {
            let outcome = verify::run(source, expected_value.as_str(), state);
            let result = match outcome {
                Ok(test) => Ok(Some(test)),
                Err(error) => Err(error),
            };
            assert(outcome_view(result) == action_outcome(
                action@,
                state@,
                Reply { executed: Err(ErrorView::RunFailed { message: Seq::empty() }), written: Ok(()) },
            ));
            result
        },
        Action::CreateFile { path, content } => {
            let outcome = file::run(path, content.as_str(), writer);
            let ghost written = choose|written: Result<(), Seq<char>>|
                file::outcome_view(outcome) == #[trigger] file::write_outcome(path@, written);
            let result = match outcome {
                Ok(()) => Ok(None),
                Err(error) => Err(error),
            };
            assert(outcome_view(result) == action_outcome(
                action@,
                state@,
                Reply { executed: Err(ErrorView::RunFailed { message: Seq::empty() }), written },
            ));
            result
        },
    }
}

} // verus!
