//! What holds of the exit code of every run, and of the order in which
//! documents are run.

use crate::commands::run::{
    document_events, error_class, exit_code_of, has_failed_document, is_execution,
    is_first_error, DocumentView,
};
use crate::exit_codes::ExitCode;
use crate::parser::DocumentErrorView;
use crate::results::printer::PrintItemView;
use crate::runner::laws::{
    lemma_run_shape, lemma_script_then_verify, lemma_verify_without_script,
};
use crate::runner::state::StateView;
use crate::runner::executor::words;
use crate::runner::{progress, run_events, shell_events, Reply, RunEventView};
use crate::types::{ActionView, SourceView, Stream};
use vstd::prelude::*;

verus! {

/// The first error among events is the one that decides the exit code.
pub proof fn lemma_first_error_decides(events: Seq<RunEventView>, i: int)
    requires
        is_first_error(events, i),
    ensures
        exit_code_of(events) == error_class(events[i]->ErrorOccurred_0),
{
    let first = choose|j: int| is_first_error(events, j);
    if first < i {
        assert(!(events[first] is ErrorOccurred));
    } else if i < first {
        assert(!(events[i] is ErrorOccurred));
    }
}

/// The exit code of the run of one document. A run that an error ended
/// has the class of that error. Any other run is a success when every
/// test passed, and a failed test otherwise.
pub proof fn lemma_run_exit_code(
    spec_file: Seq<char>,
    actions: Seq<ActionView>,
    replies: Seq<Reply>,
)
    ensures
        ({
            let end = progress(StateView::empty(), actions, replies);
            exit_code_of(run_events(spec_file, actions, replies)) == if end.halted {
                error_class(end.events.last()->ErrorOccurred_0)
            } else if end.state.success {
                ExitCode::Success
            } else {
                ExitCode::TestFailed
            }
        }),
{
    let end = progress(StateView::empty(), actions, replies);
    let events = run_events(spec_file, actions, replies);
    let last = events.len() - 1;
    lemma_run_shape(actions, replies);
    assert(events[0] is SpecFileStarted);
    assert(events[last] == RunEventView::SpecFileCompleted { success: end.state.success });
    assert forall|i: int| 0 < i < last implies events[i] == end.events[i - 1] by {}
    if end.halted {
        let at = end.events.len() as int;
        assert(events[at] == end.events.last());
        assert forall|j: int| 0 <= j < at implies !(#[trigger] events[j] is ErrorOccurred) by {
            if j > 0 {
                assert(events[j] == end.events[j - 1]);
                assert(end.events[j - 1] is TestCompleted);
            }
        }
        lemma_first_error_decides(events, at);
    } else {
        assert forall|j: int| 0 <= j < events.len() implies !(#[trigger] events[j]
            is ErrorOccurred) by {
            if 0 < j < last {
                assert(events[j] == end.events[j - 1]);
                if j - 1 < end.events.len() - 1 {
                    assert(end.events[j - 1] is TestCompleted);
                }
            }
        }
        assert(!exists|i: int| is_first_error(events, i));
        if end.state.success {
            assert forall|j: int| 0 <= j < events.len() implies #[trigger] events[j] != (
            RunEventView::SpecFileCompleted { success: false }) by {
                if 0 < j < last {
                    assert(events[j] == end.events[j - 1]);
                    if j - 1 < end.events.len() - 1 {
                        assert(end.events[j - 1] is TestCompleted);
                    }
                }
            }
        } else {
            assert(events[last] == RunEventView::SpecFileCompleted { success: false });
        }
    }
}

/// Without an error the order of the events does not matter: two
/// sequences that hold the same events have the same exit code.
pub proof fn lemma_order_does_not_matter(first: Seq<RunEventView>, second: Seq<RunEventView>)
    requires
        forall|i: int| 0 <= i < first.len() ==> !(#[trigger] first[i] is ErrorOccurred),
        forall|event: RunEventView| first.contains(event) <==> second.contains(event),
    ensures
        exit_code_of(first) == exit_code_of(second),
{
    let failed = RunEventView::SpecFileCompleted { success: false };
    assert forall|j: int| 0 <= j < second.len() implies !(#[trigger] second[j]
        is ErrorOccurred) by {
        assert(second.contains(second[j]));
        let i = choose|i: int| 0 <= i < first.len() && first[i] == second[j];
        assert(!(first[i] is ErrorOccurred));
    }
    if has_failed_document(first) {
        let i = choose|i: int| 0 <= i < first.len() && #[trigger] first[i] == failed;
        assert(first.contains(failed));
        let j = choose|j: int| 0 <= j < second.len() && second[j] == failed;
        assert(second[j] == failed);
    }
    if has_failed_document(second) {
        let j = choose|j: int| 0 <= j < second.len() && #[trigger] second[j] == failed;
        assert(second.contains(failed));
        let i = choose|i: int| 0 <= i < first.len() && first[i] == failed;
        assert(first[i] == failed);
    }
}

/// A document that runs a script and then compares its standard output
/// succeeds when the script ended with zero and printed exactly what was
/// expected. Otherwise it ends with the exit code of a failed test, never
/// with that of an error.
pub proof fn lemma_script_then_verify_exit_code(
    spec_file: Seq<char>,
    name: Seq<char>,
    code: Seq<char>,
    expected: Seq<char>,
    replies: Seq<Reply>,
)
    requires
        replies.len() == 2,
        replies[0].executed is Ok,
    ensures
        ({
            let output = replies[0].executed->Ok_0;
            exit_code_of(
                run_events(
                    spec_file,
                    seq![
                        ActionView::Script { name, code, expected_exit_code: None },
                        ActionView::Verify {
                            source: SourceView { name, stream: Stream::StdOut },
                            expected_value: expected,
                        },
                    ],
                    replies,
                ),
            ) == if output.exit_code == 0 && expected == output.stdout {
                ExitCode::Success
            } else {
                ExitCode::TestFailed
            }
        }),
{
    let actions = seq![
        ActionView::Script { name, code, expected_exit_code: None },
        ActionView::Verify {
            source: SourceView { name, stream: Stream::StdOut },
            expected_value: expected,
        },
    ];
    lemma_script_then_verify(spec_file, name, code, expected, replies);
    let events = run_events(spec_file, actions, replies);
    assert(events.len() == 4);
    assert(events[0] is SpecFileStarted);
    assert(events[1] is TestCompleted);
    assert(events[2] is TestCompleted);
    assert(events[3] is SpecFileCompleted);
    assert(!exists|i: int| is_first_error(events, i));
}

/// A document that compares the output of a script that has not run ends
/// with the exit code of an error.
pub proof fn lemma_verify_without_script_exit_code(
    spec_file: Seq<char>,
    source: SourceView,
    expected: Seq<char>,
    replies: Seq<Reply>,
)
    ensures
        exit_code_of(
            run_events(
                spec_file,
                seq![ActionView::Verify { source, expected_value: expected }],
                replies,
            ),
        ) == ExitCode::ErrorOccurred,
{
    lemma_verify_without_script(spec_file, source, expected, replies);
    let events = run_events(
        spec_file,
        seq![ActionView::Verify { source, expected_value: expected }],
        replies,
    );
    assert(events[0] is SpecFileStarted);
    assert(is_first_error(events, 1));
    lemma_first_error_decides(events, 1);
}

/// A document that cannot be read ends with the exit code of an error. A
/// document that cannot be turned into actions ends with that of a failed
/// test.
pub proof fn lemma_unusable_document(
    spec_file: Seq<char>,
    message: Seq<char>,
    error: DocumentErrorView,
    command: Seq<char>,
    replies: Seq<Reply>,
)
    ensures
        exit_code_of(
            document_events(spec_file, DocumentView::Unreadable(message), command, replies),
        ) == ExitCode::ErrorOccurred,
        exit_code_of(document_events(spec_file, DocumentView::Malformed(error), command, replies))
            == ExitCode::TestFailed,
{
    let unreadable = document_events(
        spec_file,
        DocumentView::Unreadable(message),
        command,
        replies,
    );
    assert(unreadable[0] is SpecFileStarted);
    assert(is_first_error(unreadable, 1));
    lemma_first_error_decides(unreadable, 1);
    let malformed = document_events(spec_file, DocumentView::Malformed(error), command, replies);
    assert(malformed[0] is SpecFileStarted);
    assert(is_first_error(malformed, 1));
    lemma_first_error_decides(malformed, 1);
}

/// A shell command without a word ends the run of every document with the
/// exit code of an error, whatever its actions, and none of them gives a
/// test.
pub proof fn lemma_bad_shell_command(
    spec_file: Seq<char>,
    actions: Seq<ActionView>,
    command: Seq<char>,
    replies: Seq<Reply>,
)
    requires
        words(command).len() == 0,
    ensures
        exit_code_of(shell_events(spec_file, actions, command, replies))
            == ExitCode::ErrorOccurred,
        forall|i: int|
            0 <= i < shell_events(spec_file, actions, command, replies).len() ==> !(
            #[trigger] shell_events(spec_file, actions, command, replies)[i] is TestCompleted),
{
    let events = shell_events(spec_file, actions, command, replies);
    assert(events[0] is SpecFileStarted);
    assert(is_first_error(events, 1));
    lemma_first_error_decides(events, 1);
}

/// A document that did not succeed is the last one that was run, and its
/// exit code is the outcome of the whole.
pub proof fn lemma_failure_ends_execution(
    spec_files: Seq<Seq<char>>,
    command: Seq<char>,
    contents: Seq<Result<Seq<char>, Seq<char>>>,
    replies: Seq<Seq<Reply>>,
    exit_codes: Seq<ExitCode>,
    items: Seq<Seq<PrintItemView>>,
    exit_code: ExitCode,
    k: int,
)
    requires
        is_execution(spec_files, command, contents, replies, exit_codes, items, exit_code),
        0 <= k < exit_codes.len(),
        exit_codes[k] != ExitCode::Success,
    ensures
        k == exit_codes.len() - 1,
        exit_code == exit_codes[k],
{
}

/// Where the first document does not succeed, it is the only one that is
/// run: the documents after it are never opened, and the printer is
/// handed its items and no others.
pub proof fn lemma_stops_at_first_failure(
    spec_files: Seq<Seq<char>>,
    command: Seq<char>,
    contents: Seq<Result<Seq<char>, Seq<char>>>,
    replies: Seq<Seq<Reply>>,
    exit_codes: Seq<ExitCode>,
    items: Seq<Seq<PrintItemView>>,
    exit_code: ExitCode,
)
    requires
        is_execution(spec_files, command, contents, replies, exit_codes, items, exit_code),
        exit_codes.len() > 0,
        exit_codes[0] != ExitCode::Success,
    ensures
        exit_codes.len() == 1,
        contents.len() == 1,
        items.flatten() == items[0],
        exit_code == exit_codes[0],
{
    lemma_failure_ends_execution(
        spec_files,
        command,
        contents,
        replies,
        exit_codes,
        items,
        exit_code,
        0,
    );
    items.lemma_flatten_one_element();
}

/// The outcome of the whole is success exactly when every document was
/// run and every one succeeded.
pub proof fn lemma_success_of_all(
    spec_files: Seq<Seq<char>>,
    command: Seq<char>,
    contents: Seq<Result<Seq<char>, Seq<char>>>,
    replies: Seq<Seq<Reply>>,
    exit_codes: Seq<ExitCode>,
    items: Seq<Seq<PrintItemView>>,
    exit_code: ExitCode,
)
    requires
        is_execution(spec_files, command, contents, replies, exit_codes, items, exit_code),
    ensures
        exit_code == ExitCode::Success <==> exit_codes.len() == spec_files.len() && forall|i: int|
            0 <= i < exit_codes.len() ==> #[trigger] exit_codes[i] == ExitCode::Success,
{
}

} // verus!
