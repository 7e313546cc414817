//! Running a script and judging how it ended.

use crate::results::test_result::{
    Detail, DetailView, ScriptResult, ScriptResultView, TestResult, TestResultView,
};
use crate::runner::error::{Error, ErrorView};
use crate::runner::executor::{Executor, Output, OutputView};
use crate::text::result_view;
use crate::types::{ExitCode, ScriptName};
use vstd::prelude::*;
use vstd::string::*;

verus! {

/// The exit code that a script has to end with to pass: the expected one
/// where one is given, and zero otherwise.
pub open spec fn passing_exit_code(expected: Option<ExitCode>) -> int {
    match expected {
        Some(ExitCode(code)) => code as int,
        None => 0,
    }
}

/// The test that a script amounts to which ran under `name` and left
/// `output`.
pub open spec fn script_test(
    name: Seq<char>,
    expected: Option<ExitCode>,
    output: OutputView,
) -> TestResultView {
    TestResultView {
        description: "script "@ + name,
        passed: output.exit_code as int == passing_exit_code(expected),
        detail: DetailView::Script {
            result: ScriptResultView {
                name,
                stdout: output.stdout,
                stderr: output.stderr,
                exit_code: output.exit_code,
            },
            expected_exit_code: expected,
        },
    }
}

/// What a `Script` action comes to, given what the executor answered: a
/// test where the script ran, whatever its exit code, and the executor's
/// error where it did not.
pub open spec fn script_outcome(
    name: Seq<char>,
    expected: Option<ExitCode>,
    executed: Result<OutputView, ErrorView>,
) -> Result<TestResultView, ErrorView> {
    match executed {
        Ok(output) => Ok(script_test(name, expected, output)),
        Err(error) => Err(error),
    }
}

/// Judges what the executor answered for the script `script_name`.
pub fn concluded(
    script_name: &ScriptName,
    expected_exit_code: &Option<ExitCode>,
    executed: Result<Output, Error>,
) -> (result: Result<TestResult, Error>)
    ensures
        result_view(result) == script_outcome(
            script_name@,
            *expected_exit_code,
            result_view(executed),
        ),
{
    match executed {
        Ok(output) => {
            let passed = match expected_exit_code {
                Some(ExitCode(code)) => output.exit_code >= 0 && output.exit_code as u32 == *code,
                None => output.exit_code == 0,
            };
            Ok(
                TestResult {
                    description: String::from_str("script ").concat(script_name.0.as_str()),
                    passed,
                    detail: Detail::Script {
                        result: ScriptResult {
                            name: script_name.clone(),
                            stdout: output.stdout,
                            stderr: output.stderr,
                            exit_code: output.exit_code,
                        },
                        expected_exit_code: *expected_exit_code,
                    },
                },
            )
        },
        Err(error) => Err(error),
    }
}

/// Runs the script `script_name` and judges how it ended. The outcome is
/// that of some answer of the executor.
pub fn run<E: Executor>(
    script_name: &ScriptName,
    script_code: &str,
    expected_exit_code: &Option<ExitCode>,
    executor: &E,
) -> (result: Result<TestResult, Error>)
    ensures
        exists|executed: Result<OutputView, ErrorView>|
            result_view(result) == #[trigger] script_outcome(
                script_name@,
                *expected_exit_code,
                executed,
            ),
{
    let executed = executor.run(script_code);
    let ghost seen = result_view(executed);
    let result = concluded(script_name, expected_exit_code, executed);
    assert(result_view(result) == script_outcome(script_name@, *expected_exit_code, seen));
    result
}

} // verus!
