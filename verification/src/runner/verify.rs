//! Comparing a recorded stream with what a document expects.

use crate::results::test_result::{Detail, DetailView, TestResult, TestResultView};
use crate::runner::error::{Error, ErrorView};
use crate::runner::state::{State, StateView};
use crate::text::{result_view, str_eq};
use crate::types::{Source, SourceView, Stream};
use vstd::prelude::*;
use vstd::string::*;

verus! {

/// The name of a stream as documents write it.
pub open spec fn stream_name(stream: Stream) -> Seq<char> {
    match stream {
        Stream::Output => "output"@,
        Stream::StdOut => "stdout"@,
        Stream::StdErr => "stderr"@,
    }
}

/// Whether `actual` is what was expected: the same characters, all of
/// them.
pub open spec fn matches_expected(expected: Seq<char>, actual: Seq<char>) -> bool {
    expected == actual
}

/// What a `Verify` action comes to in the state `state`: a test that
/// passes when the recorded stream is the expected text, and an error
/// when the script has not run.
pub open spec fn verify_outcome(
    source: SourceView,
    expected_value: Seq<char>,
    state: StateView,
) -> Result<TestResultView, ErrorView> {
    match state.output(source) {
        Some(actual) => Ok(
            TestResultView {
                description: "verify "@ + stream_name(source.stream) + " of "@ + source.name,
                passed: matches_expected(expected_value, actual),
                detail: DetailView::Verify { source, expected: expected_value, actual },
            },
        ),
        None => Err(ErrorView::ScriptNotFound { name: source.name }),
    }
}

/// Whether `actual` is exactly `expected`.
pub fn verify(expected: &str, actual: &str) -> (same: bool)
    ensures
        same == matches_expected(expected@, actual@),
{
    str_eq(expected, actual)
}

/// The name of `stream` as documents write it.
pub fn name_of(stream: Stream) -> (name: &'static str)
    ensures
        name@ == stream_name(stream),
{
    match stream {
        Stream::Output => "output",
        Stream::StdOut => "stdout",
        Stream::StdErr => "stderr",
    }
}

/// Compares the stream `source`, as `state` recorded it, with
/// `expected_value`.
pub fn run(source: &Source, expected_value: &str, state: &State) -> (result: Result<
    TestResult,
    Error,
>)
    ensures
        result_view(result) == verify_outcome(source@, expected_value@, state@),
{
    match state.get_script_output(source) {
        Some(actual) => {
            let passed = verify(expected_value, actual.as_str());
            Ok(
                TestResult {
                    description: String::from_str("verify ").concat(name_of(source.stream)).concat(
                        " of ",
                    ).concat(source.name.0.as_str()),
                    passed,
                    detail: Detail::Verify {
                        source: source.clone(),
                        expected: String::from_str(expected_value),
                        actual,
                    },
                },
            )
        },
        None => Err(Error::ScriptNotFound { name: source.name.0.clone() }),
    }
}

} // verus!
