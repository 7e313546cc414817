//! What holds of every run, whatever the executor and the file writer
//! answer.

use crate::results::test_result::{DetailView, TestResultView};
use crate::runner::error::ErrorView;
use crate::runner::script::script_test;
use crate::runner::state::StateView;
use crate::runner::verify::{matches_expected, stream_name};
use crate::runner::{progress, run_events, step, Reply, RunEventView};
use crate::types::{ActionView, SourceView, Stream};
use vstd::prelude::*;

verus! {

/// Whether every test among `events` passed.
pub open spec fn all_passed(events: Seq<RunEventView>) -> bool {
    forall|i: int|
        0 <= i < events.len() ==> (#[trigger] events[i] matches RunEventView::TestCompleted(test)
            ==> test.passed)
}

/// Whether `events` are the events of actions: tests, and at most one
/// error, which then is the last of them.
pub open spec fn tests_then_error(events: Seq<RunEventView>, halted: bool) -> bool {
    &&& forall|i: int|
        0 <= i < events.len() - 1 ==> #[trigger] events[i] is TestCompleted
    &&& halted ==> events.len() > 0 && events.last() is ErrorOccurred
    &&& !halted ==> (events.len() > 0 ==> events.last() is TestCompleted)
}

/// The events of the actions of a run are tests, up to the error that ends
/// it, if one does. The run ends with success exactly when every test
/// passed and no error occurred.
pub proof fn lemma_run_shape(actions: Seq<ActionView>, replies: Seq<Reply>)
    ensures
        tests_then_error(
            progress(StateView::empty(), actions, replies).events,
            progress(StateView::empty(), actions, replies).halted,
        ),
        progress(StateView::empty(), actions, replies).state.success <==> all_passed(
            progress(StateView::empty(), actions, replies).events,
        ) && !progress(StateView::empty(), actions, replies).halted,
    decreases actions.len(),
{
    if actions.len() > 0 {
        lemma_run_shape(actions.drop_last(), replies);
        let before = progress(StateView::empty(), actions.drop_last(), replies);
        let after = progress(StateView::empty(), actions, replies);
        if !before.halted {
            if after.events.len() > before.events.len() {
                assert(after.events.drop_last() == before.events);
                assert forall|i: int| 0 <= i < after.events.len() - 1 implies
                    #[trigger] after.events[i] is TestCompleted by {
                    assert(after.events[i] == before.events[i]);
                }
                if all_passed(after.events) {
                    assert forall|i: int| 0 <= i < before.events.len() implies (
                    #[trigger] before.events[i] matches RunEventView::TestCompleted(test)
                        ==> test.passed) by {
                        assert(after.events[i] == before.events[i]);
                    }
                }
                if all_passed(before.events) && !after.halted && after.state.success {
                    assert forall|i: int| 0 <= i < after.events.len() implies (
                    #[trigger] after.events[i] matches RunEventView::TestCompleted(test)
                        ==> test.passed) by {
                        if i < before.events.len() {
                            assert(after.events[i] == before.events[i]);
                        }
                    }
                }
                if !after.halted && all_passed(after.events) {
                    assert(after.events[after.events.len() - 1] is TestCompleted);
                }
            }
        }
    }
}

/// A script can only be on record after an action has run it.
pub proof fn lemma_recorded_scripts(actions: Seq<ActionView>, replies: Seq<Reply>, name: Seq<char>)
    requires
        progress(StateView::empty(), actions, replies).state.scripts.contains_key(name),
    ensures
        exists|i: int|
            0 <= i < actions.len() && (#[trigger] actions[i] matches ActionView::Script {
                name: script,
                ..
            } && script == name),
    decreases actions.len(),
{
    if actions.len() > 0 {
        let before = progress(StateView::empty(), actions.drop_last(), replies);
        if before.state.scripts.contains_key(name) {
            lemma_recorded_scripts(actions.drop_last(), replies, name);
            let i = choose|i: int|
                0 <= i < actions.drop_last().len() && (
                #[trigger] actions.drop_last()[i] matches ActionView::Script { name: script, .. }
                    && script == name);
            assert(actions[i] == actions.drop_last()[i]);
        } else {
            let last = actions.len() - 1;
            assert(actions[last] matches ActionView::Script { name: script, .. } && script == name);
        }
    }
}

/// A document that runs a script and then compares its standard output
/// gives two tests, whatever the script printed. The first passes when
/// the script ended with zero, the second when it printed exactly what
/// was expected, and the run succeeds when both do.
pub proof fn lemma_script_then_verify(
    spec_file: Seq<char>,
    name: Seq<char>,
    code: Seq<char>,
    expected: Seq<char>,
    replies: Seq<Reply>,
)
    requires
        replies.len() == 2,
        replies[0].executed is Ok,
    ensures
        ({
            let output = replies[0].executed->Ok_0;
            let source = SourceView { name, stream: Stream::StdOut };
            run_events(
                spec_file,
                seq![
                    ActionView::Script { name, code, expected_exit_code: None },
                    ActionView::Verify { source, expected_value: expected },
                ],
                replies,
            ) == seq![
                RunEventView::SpecFileStarted(spec_file),
                RunEventView::TestCompleted(script_test(name, None, output)),
                RunEventView::TestCompleted(
                    TestResultView {
                        description: "verify "@ + stream_name(Stream::StdOut) + " of "@ + name,
                        passed: matches_expected(expected, output.stdout),
                        detail: DetailView::Verify { source, expected, actual: output.stdout },
                    },
                ),
                RunEventView::SpecFileCompleted {
                    success: output.exit_code == 0 && expected == output.stdout,
                },
            ]
        }),
{
    let source = SourceView { name, stream: Stream::StdOut };
    let first = ActionView::Script { name, code, expected_exit_code: None };
    let second = ActionView::Verify { source, expected_value: expected };
    let actions = seq![first, second];
    let start = StateView::empty();
    assert(actions.drop_last() == seq![first]);
    assert(seq![first].drop_last() == Seq::<ActionView>::empty());
    let none = progress(start, Seq::<ActionView>::empty(), replies);
    let one = progress(start, seq![first], replies);
    assert(one == step(none, first, replies[0]));
    let two = progress(start, actions, replies);
    assert(two == step(one, second, replies[1]));
    let output = replies[0].executed->Ok_0;
    assert(one.state.scripts.contains_key(name));
    assert(two.events =~= seq![one.events[0], two.events[1]]);
}

/// A document that compares the output of a script that has not run
/// starts, reports that the script was not found, and ends without
/// success.
pub proof fn lemma_verify_without_script(
    spec_file: Seq<char>,
    source: SourceView,
    expected: Seq<char>,
    replies: Seq<Reply>,
)
    ensures
        run_events(
            spec_file,
            seq![ActionView::Verify { source, expected_value: expected }],
            replies,
        ) == seq![
            RunEventView::SpecFileStarted(spec_file),
            RunEventView::ErrorOccurred(ErrorView::ScriptNotFound { name: source.name }),
            RunEventView::SpecFileCompleted { success: false },
        ],
{
    let action = ActionView::Verify { source, expected_value: expected };
    let start = StateView::empty();
    assert(seq![action].drop_last() == Seq::<ActionView>::empty());
    let none = progress(start, Seq::<ActionView>::empty(), replies);
    let one = progress(start, seq![action], replies);
    assert(one == step(none, action, replies[0]));
    assert(one.events =~= seq![
        RunEventView::ErrorOccurred(ErrorView::ScriptNotFound { name: source.name }),
    ]);
}

} // verus!
