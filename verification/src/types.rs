//! The actions that a specification document is made of.

use vstd::prelude::*;

verus! {

/// The name under which a script's results are recorded.
#[derive(Debug, PartialEq, Eq)]
pub struct ScriptName(pub String);

impl Clone for ScriptName {
    fn clone(&self) -> (copy: Self)
        ensures
            copy == *self,
    {
        ScriptName(self.0.clone())
    }
}

impl View for ScriptName {
    type V = Seq<char>;

    open spec fn view(&self) -> Seq<char> {
        self.0@
    }
}

/// The path of a file that a document asks to be created.
#[derive(Debug, PartialEq, Eq)]
pub struct FilePath(pub String);

impl Clone for FilePath {
    fn clone(&self) -> (copy: Self)
        ensures
            copy == *self,
    {
        FilePath(self.0.clone())
    }
}

impl View for FilePath {
    type V = Seq<char>;

    open spec fn view(&self) -> Seq<char> {
        self.0@
    }
}

/// The exit code that a script is expected to end with.
#[derive(Debug, Clone, Copy, PartialEq, Eq, Structural)]
pub struct ExitCode(pub u32);

/// A channel of a script's captured output.
#[derive(Debug, Clone, Copy, PartialEq, Eq, Structural)]
pub enum Stream {
    /// Standard output followed by standard error.
    Output,
    /// Standard output.
    StdOut,
    /// Standard error.
    StdErr,
}

/// A captured stream of a named script.
#[derive(Debug, PartialEq, Eq)]
pub struct Source {
    pub name: ScriptName,
    pub stream: Stream,
}

impl Clone for Source {
    fn clone(&self) -> (copy: Self)
        ensures
            copy == *self,
    {
        Source { name: self.name.clone(), stream: self.stream }
    }
}

/// What a `Source` stands for in specifications.
pub struct SourceView {
    pub name: Seq<char>,
    pub stream: Stream,
}

impl View for Source {
    type V = SourceView;

    open spec fn view(&self) -> SourceView {
        SourceView { name: self.name@, stream: self.stream }
    }
}

/// One executable unit of a specification document.
#[derive(Debug, PartialEq, Eq)]
pub enum Action {
    /// Run `code` and record its results under `name`.
    Script { name: ScriptName, code: String, expected_exit_code: Option<ExitCode> },
    /// Compare a recorded stream with `expected_value`.
    Verify { source: Source, expected_value: String },
    /// Write `content` to the file at `path`.
    CreateFile { path: FilePath, content: String },
}

impl Clone for Action {
    fn clone(&self) -> (copy: Self)
        ensures
            copy == *self,
    {
        match self {
            Action::Script { name, code, expected_exit_code } => Action::Script {
                name: name.clone(),
                code: code.clone(),
                expected_exit_code: *expected_exit_code,
            },
            Action::Verify { source, expected_value } => Action::Verify {
                source: source.clone(),
                expected_value: expected_value.clone(),
            },
            Action::CreateFile { path, content } => Action::CreateFile {
                path: path.clone(),
                content: content.clone(),
            },
        }
    }
}

/// What an `Action` stands for in specifications.
pub enum ActionView {
    Script { name: Seq<char>, code: Seq<char>, expected_exit_code: Option<ExitCode> },
    Verify { source: SourceView, expected_value: Seq<char> },
    CreateFile { path: Seq<char>, content: Seq<char> },
}

impl View for Action {
    type V = ActionView;

    open spec fn view(&self) -> ActionView {
        match self {
            Action::Script { name, code, expected_exit_code } => ActionView::Script {
                name: name@,
                code: code@,
                expected_exit_code: *expected_exit_code,
            },
            Action::Verify { source, expected_value } => ActionView::Verify {
                source: source@,
                expected_value: expected_value@,
            },
            Action::CreateFile { path, content } => ActionView::CreateFile {
                path: path@,
                content: content@,
            },
        }
    }
}

} // verus!
