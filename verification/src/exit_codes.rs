//! The classes of exit status that a run can end with.

use vstd::prelude::*;

verus! {

/// How a run ended, as reported to the calling process.
#[derive(Debug, Clone, Copy, PartialEq, Eq, Structural)]
pub enum ExitCode {
    /// Every test passed.
    Success,
    /// A test failed, or a document could not be parsed.
    TestFailed,
    /// The run could not be carried out.
    ErrorOccurred,
}

impl ExitCode {
    /// The exit status that the process reports for this class: zero for
    /// success, and two distinct non-zero numbers for the others.
    pub fn status(self) -> (status: i32)
        ensures
            status == match self {
                ExitCode::Success => 0i32,
                ExitCode::TestFailed => 1i32,
                ExitCode::ErrorOccurred => 2i32,
            },
    {
        match self {
            ExitCode::Success => 0,
            ExitCode::TestFailed => 1,
            ExitCode::ErrorOccurred => 2,
        }
    }
}

} // verus!
