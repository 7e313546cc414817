//! Creating the files that a document asks for.

use crate::runner::error::{Error, ErrorView};
use crate::types::FilePath;
use vstd::prelude::*;
use vstd::string::*;

verus! {

/// Writes files below the directory in which the scripts run.
pub trait FileWriter {
    /// Writes `content` to the file at `path`, with the directories that
    /// lead to it, or hands back the reason why it could not.
    fn write(&self, path: &str, content: &str) -> Result<(), String>;
}

/// What a writer answered, with the view of the reason.
pub open spec fn answer_view(written: Result<(), String>) -> Result<(), Seq<char>> {
    match written {
        Ok(()) => Ok(()),
        Err(message) => Err(message@),
    }
}

/// What an outcome stands for in specifications.
pub open spec fn outcome_view(result: Result<(), Error>) -> Result<(), ErrorView> {
    match result {
        Ok(()) => Ok(()),
        Err(error) => Err(error@),
    }
}

/// What a `CreateFile` action comes to, given what the writer answered: a
/// file that could not be written is an error.
pub open spec fn write_outcome(path: Seq<char>, written: Result<(), Seq<char>>) -> Result<
    (),
    ErrorView,
> {
    match written {
        Ok(()) => Ok(()),
        Err(message) => Err(ErrorView::FileWriteFailed { path, message }),
    }
}

/// Judges what the writer answered for the file at `file_path`.
pub fn concluded(file_path: &FilePath, written: Result<(), String>) -> (result: Result<(), Error>)
    ensures
        outcome_view(result) == write_outcome(file_path@, answer_view(written)),
{
    match written {
        Ok(()) => Ok(()),
        Err(message) => Err(Error::FileWriteFailed { path: file_path.0.clone(), message }),
    }
}

/// Writes `file_content` to the file at `file_path`. The outcome is that
/// of some answer of the writer.
pub fn run<W: FileWriter>(file_path: &FilePath, file_content: &str, writer: &W) -> (result: Result<
    (),
    Error,
>)
    ensures
        exists|written: Result<(), Seq<char>>|
            outcome_view(result) == #[trigger] write_outcome(file_path@, written),
{
    let written = writer.write(file_path.0.as_str(), file_content);
    let ghost seen = answer_view(written);
    let result = concluded(file_path, written);
    assert(outcome_view(result) == write_outcome(file_path@, seen));
    result
}

} // verus!
