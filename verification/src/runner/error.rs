//! The errors that end a run.

use vstd::prelude::*;

verus! {

/// Why a run could not go on.
#[derive(Debug, PartialEq, Eq)]
pub enum Error {
    /// The document could not be turned into actions.
    RunFailed { message: String },
    /// The document could not be read.
    SpecFileUnreadable { path: String, message: String },
    /// The shell command has no executable to run.
    BadShellCommand { command: String },
    /// The shell could not be started.
    CommandFailed { command: String, message: String },
    /// A `verify` names a script that has not run.
    ScriptNotFound { name: String },
    /// A file could not be written.
    FileWriteFailed { path: String, message: String },
}

/// What an `Error` stands for in specifications.
pub enum ErrorView {
    RunFailed { message: Seq<char> },
    SpecFileUnreadable { path: Seq<char>, message: Seq<char> },
    BadShellCommand { command: Seq<char> },
    CommandFailed { command: Seq<char>, message: Seq<char> },
    ScriptNotFound { name: Seq<char> },
    FileWriteFailed { path: Seq<char>, message: Seq<char> },
}

impl View for Error {
    type V = ErrorView;

    open spec fn view(&self) -> ErrorView {
        match self {
            Error::RunFailed { message } => ErrorView::RunFailed { message: message@ },
            Error::SpecFileUnreadable { path, message } => ErrorView::SpecFileUnreadable {
                path: path@,
                message: message@,
            },
            Error::BadShellCommand { command } => ErrorView::BadShellCommand { command: command@ },
            Error::CommandFailed { command, message } => ErrorView::CommandFailed {
                command: command@,
                message: message@,
            },
            Error::ScriptNotFound { name } => ErrorView::ScriptNotFound { name: name@ },
            Error::FileWriteFailed { path, message } => ErrorView::FileWriteFailed {
                path: path@,
                message: message@,
            },
        }
    }
}

impl Clone for Error {
    fn clone(&self) -> (copy: Self)
        ensures
            copy == *self,
    {
        match self {
            Error::RunFailed { message } => Error::RunFailed { message: message.clone() },
            Error::SpecFileUnreadable { path, message } => Error::SpecFileUnreadable {
                path: path.clone(),
                message: message.clone(),
            },
            Error::BadShellCommand { command } => Error::BadShellCommand {
                command: command.clone(),
            },
            Error::CommandFailed { command, message } => Error::CommandFailed {
                command: command.clone(),
                message: message.clone(),
            },
            Error::ScriptNotFound { name } => Error::ScriptNotFound { name: name.clone() },
            Error::FileWriteFailed { path, message } => Error::FileWriteFailed {
                path: path.clone(),
                message: message.clone(),
            },
        }
    }
}

} // verus!
