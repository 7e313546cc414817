//! Why an annotation on a code block was not accepted.

use vstd::prelude::*;
use vstd::string::*;

verus! {

/// Why an annotation on a code block was not accepted.
#[derive(Debug, PartialEq, Eq)]
pub enum Error {
    /// The text is not a function call.
    ParserFailed(String),
    /// The function is none of `script`, `verify` and `file`.
    UnknownFunction(String),
    /// The function lacks an argument that it needs.
    MissingArgument { function: String, argument: String },
    /// An argument has a value of the wrong kind.
    IncorrectArgumentType { function: String, argument: String, expected: String, got: String },
    /// An argument has a value that the function does not know.
    InvalidArgumentValue { function: String, argument: String, expected: String, got: String },
}

/// What an `Error` stands for in specifications.
pub enum ErrorView {
    ParserFailed(Seq<char>),
    UnknownFunction(Seq<char>),
    MissingArgument { function: Seq<char>, argument: Seq<char> },
    IncorrectArgumentType {
        function: Seq<char>,
        argument: Seq<char>,
        expected: Seq<char>,
        got: Seq<char>,
    },
    InvalidArgumentValue {
        function: Seq<char>,
        argument: Seq<char>,
        expected: Seq<char>,
        got: Seq<char>,
    },
}

impl View for Error {
    type V = ErrorView;

    open spec fn view(&self) -> ErrorView {
        match self {
            Error::ParserFailed(message) => ErrorView::ParserFailed(message@),
            Error::UnknownFunction(name) => ErrorView::UnknownFunction(name@),
            Error::MissingArgument { function, argument } => ErrorView::MissingArgument {
                function: function@,
                argument: argument@,
            },
            Error::IncorrectArgumentType { function, argument, expected, got } =>
                ErrorView::IncorrectArgumentType {
                    function: function@,
                    argument: argument@,
                    expected: expected@,
                    got: got@,
                },
            Error::InvalidArgumentValue { function, argument, expected, got } =>
                ErrorView::InvalidArgumentValue {
                    function: function@,
                    argument: argument@,
                    expected: expected@,
                    got: got@,
                },
        }
    }
}

/// The sentence that describes an error.
pub open spec fn message(error: ErrorView) -> Seq<char> {
    match error {
        ErrorView::ParserFailed(message) => "The parser failed: "@ + message,
        ErrorView::UnknownFunction(name) => "Unknown function: "@ + name,
        ErrorView::MissingArgument { function, argument } => "Function "@ + function
            + " requires argument "@ + argument,
        ErrorView::IncorrectArgumentType { function, argument, expected, got } => "Function "@
            + function + " requires argument "@ + argument + " to be a "@ + expected + ", got "@
            + got,
        ErrorView::InvalidArgumentValue { function, argument, expected, got } => "Argument "@
            + argument + " for function "@ + function + " must be "@ + expected + ", got "@ + got,
    }
}

impl Error {
    /// The sentence that describes this error.
    pub fn to_string(&self) -> (text: String)
        ensures
            text@ == message(self@),
    {
        match self {
            Error::ParserFailed(message) => {
                String::from_str("The parser failed: ").concat(message.as_str())
            },
            Error::UnknownFunction(name) => {
                String::from_str("Unknown function: ").concat(name.as_str())
            },
            Error::MissingArgument { function, argument } => {
                String::from_str("Function ").concat(function.as_str()).concat(
                    " requires argument ",
                ).concat(argument.as_str())
            },
            Error::IncorrectArgumentType { function, argument, expected, got } => {
                String::from_str("Function ").concat(function.as_str()).concat(
                    " requires argument ",
                ).concat(argument.as_str()).concat(" to be a ").concat(expected.as_str()).concat(
                    ", got ",
                ).concat(got.as_str())
            },
            Error::InvalidArgumentValue { function, argument, expected, got } => {
                String::from_str("Argument ").concat(argument.as_str()).concat(
                    " for function ",
                ).concat(function.as_str()).concat(" must be ").concat(expected.as_str()).concat(
                    ", got ",
                ).concat(got.as_str())
            },
        }
    }
}

} // verus!
