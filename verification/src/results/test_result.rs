//! The outcome of one test: a script that ran, or a stream that was
//! compared.

use crate::types::{ExitCode, ScriptName, Source, SourceView};
use vstd::prelude::*;

verus! {

/// What running one script produced.
#[derive(Debug, PartialEq, Eq)]
pub struct ScriptResult {
    pub name: ScriptName,
    pub stdout: String,
    pub stderr: String,
    pub exit_code: i32,
}

/// What a `ScriptResult` stands for in specifications.
pub struct ScriptResultView {
    pub name: Seq<char>,
    pub stdout: Seq<char>,
    pub stderr: Seq<char>,
    pub exit_code: i32,
}

impl View for ScriptResult {
    type V = ScriptResultView;

    open spec fn view(&self) -> ScriptResultView {
        ScriptResultView {
            name: self.name@,
            stdout: self.stdout@,
            stderr: self.stderr@,
            exit_code: self.exit_code,
        }
    }
}

impl Clone for ScriptResult {
    fn clone(&self) -> (copy: Self)
        ensures
            copy == *self,
    {
        ScriptResult {
            name: self.name.clone(),
            stdout: self.stdout.clone(),
            stderr: self.stderr.clone(),
            exit_code: self.exit_code,
        }
    }
}

/// The facts behind a test's verdict.
#[derive(Debug, PartialEq, Eq)]
pub enum Detail {
    /// A script ran; it passes when it ended with the expected exit code.
    Script { result: ScriptResult, expected_exit_code: Option<ExitCode> },
    /// A recorded stream was compared; it passes when `actual` is
    /// `expected`.
    Verify { source: Source, expected: String, actual: String },
}

/// What a `Detail` stands for in specifications.
pub enum DetailView {
    Script { result: ScriptResultView, expected_exit_code: Option<ExitCode> },
    Verify { source: SourceView, expected: Seq<char>, actual: Seq<char> },
}

impl View for Detail {
    type V = DetailView;

    open spec fn view(&self) -> DetailView {
        match self {
            Detail::Script { result, expected_exit_code } => DetailView::Script {
                result: result@,
                expected_exit_code: *expected_exit_code,
            },
            Detail::Verify { source, expected, actual } => DetailView::Verify {
                source: source@,
                expected: expected@,
                actual: actual@,
            },
        }
    }
}

impl Clone for Detail {
    fn clone(&self) -> (copy: Self)
        ensures
            copy == *self,
    {
        match self {
            Detail::Script { result, expected_exit_code } => Detail::Script {
                result: result.clone(),
                expected_exit_code: *expected_exit_code,
            },
            Detail::Verify { source, expected, actual } => Detail::Verify {
                source: source.clone(),
                expected: expected.clone(),
                actual: actual.clone(),
            },
        }
    }
}

/// The outcome of one `Script` or `Verify` action.
#[derive(Debug, PartialEq, Eq)]
pub struct TestResult {
    pub description: String,
    pub passed: bool,
    pub detail: Detail,
}

/// What a `TestResult` stands for in specifications.
pub struct TestResultView {
    pub description: Seq<char>,
    pub passed: bool,
    pub detail: DetailView,
}

impl View for TestResult {
    type V = TestResultView;

    open spec fn view(&self) -> TestResultView {
        TestResultView {
            description: self.description@,
            passed: self.passed,
            detail: self.detail@,
        }
    }
}

impl Clone for TestResult {
    fn clone(&self) -> (copy: Self)
        ensures
            copy == *self,
    {
        TestResult {
            description: self.description.clone(),
            passed: self.passed,
            detail: self.detail.clone(),
        }
    }
}

} // verus!
