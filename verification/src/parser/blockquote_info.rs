//! Annotations on blockquotes: `script(name="..")` and
//! `verify(script_name="..", stream=..)`, where the stream is `output`,
//! `stdout` or `stderr`.

use crate::parser::function_string::{
    call_function, describe, description, parse_annotation, ArgumentValue, ArgumentValueView,
    Function, FunctionView,
};
use crate::parser::grammar::annotation_call;
use crate::text::{result_view, str_eq};
use crate::types::{ScriptName, Source, SourceView, Stream};
use vstd::prelude::*;
use vstd::string::*;

verus! {

/// What a blockquote asks for.
#[derive(Debug, PartialEq)]
pub enum BlockQuoteTypes {
    /// The blockquote holds the script with this name.
    Script(ScriptName),
    /// The blockquote holds what this stream is expected to be.
    Verify(Source),
}

/// What a `BlockQuoteTypes` stands for in specifications.
pub enum BlockQuoteTypesView {
    Script(Seq<char>),
    Verify(SourceView),
}

impl View for BlockQuoteTypes {
    type V = BlockQuoteTypesView;

    open spec fn view(&self) -> BlockQuoteTypesView {
        match self {
            BlockQuoteTypes::Script(name) => BlockQuoteTypesView::Script(name@),
            BlockQuoteTypes::Verify(source) => BlockQuoteTypesView::Verify(source@),
        }
    }
}

/// Why an annotation on a blockquote was not accepted.
#[derive(Debug, PartialEq)]
pub enum Error {
    /// The text is not a function call.
    ParserFailed(String),
    /// The function is neither `script` nor `verify`.
    UnknownFunction(String),
    /// The function, then the argument that it lacks.
    MissingArgument(String, String),
    /// An argument has a value of the wrong kind.
    IncorrectArgumentType { expected: String, got: String },
    /// An argument has a value that the function does not know.
    InvalidArgumentValue { got: String, expected: String },
}

/// What an `Error` stands for in specifications.
pub enum ErrorView {
    ParserFailed(Seq<char>),
    UnknownFunction(Seq<char>),
    MissingArgument(Seq<char>, Seq<char>),
    IncorrectArgumentType { expected: Seq<char>, got: Seq<char> },
    InvalidArgumentValue { got: Seq<char>, expected: Seq<char> },
}

impl View for Error {
    type V = ErrorView;

    open spec fn view(&self) -> ErrorView {
        match self {
            Error::ParserFailed(message) => ErrorView::ParserFailed(message@),
            Error::UnknownFunction(name) => ErrorView::UnknownFunction(name@),
            Error::MissingArgument(function, argument) => ErrorView::MissingArgument(
                function@,
                argument@,
            ),
            Error::IncorrectArgumentType { expected, got } => ErrorView::IncorrectArgumentType {
                expected: expected@,
                got: got@,
            },
            Error::InvalidArgumentValue { got, expected } => ErrorView::InvalidArgumentValue {
                got: got@,
                expected: expected@,
            },
        }
    }
}

/// The sentence that describes an error.
pub open spec fn message(error: ErrorView) -> Seq<char> {
    match error {
        ErrorView::ParserFailed(message) => "The parser failed: "@ + message,
        ErrorView::UnknownFunction(name) => "Unknown function: "@ + name,
        ErrorView::MissingArgument(function, argument) => "Function "@ + function
            + " requires argument "@ + argument,
        ErrorView::IncorrectArgumentType { expected, got } =>
            "Invalid argument type. Expected "@ + expected + ", got "@ + got,
        ErrorView::InvalidArgumentValue { got, expected } =>
            "Invalid argument value. Expected "@ + expected + ", got "@ + got,
    }
}

impl Error {
    /// The sentence that describes this error.
    pub fn to_string(&self) -> (text: String)
        ensures
            text@ == message(self@),
    {
        match self {
            Error::ParserFailed(message) => {
                String::from_str("The parser failed: ").concat(message.as_str())
            },
            Error::UnknownFunction(name) => {
                String::from_str("Unknown function: ").concat(name.as_str())
            },
            Error::MissingArgument(function, argument) => {
                String::from_str("Function ").concat(function.as_str()).concat(
                    " requires argument ",
                ).concat(argument.as_str())
            },
            Error::IncorrectArgumentType { expected, got } => {
                String::from_str("Invalid argument type. Expected ").concat(
                    expected.as_str(),
                ).concat(", got ").concat(got.as_str())
            },
            Error::InvalidArgumentValue { got, expected } => {
                String::from_str("Invalid argument value. Expected ").concat(
                    expected.as_str(),
                ).concat(", got ").concat(got.as_str())
            },
        }
    }
}

/// The name of the kind of a value.
pub open spec fn kind_name(value: ArgumentValueView) -> Seq<char> {
    match value {
        ArgumentValueView::String(_) => "string"@,
        ArgumentValueView::Token(_) => "token"@,
        ArgumentValueView::Integer(_) => "integer"@,
    }
}

/// The text of the string argument `name` of `f`: an error when `f` has no
/// such argument, or when its value is no string.
pub open spec fn string_argument(f: FunctionView, name: Seq<char>) -> Result<Seq<char>, ErrorView> {
    if !f.arguments.contains_key(name) {
        Err(ErrorView::MissingArgument(f.name, name))
    } else {
        match f.arguments[name] {
            ArgumentValueView::String(text) => Ok(text),
            other => Err(
                ErrorView::IncorrectArgumentType { expected: "string"@, got: kind_name(other) },
            ),
        }
    }
}

/// The token argument `name` of `f`: an error when `f` has no such
/// argument, or when its value is no token.
pub open spec fn token_argument(f: FunctionView, name: Seq<char>) -> Result<Seq<char>, ErrorView> {
    if !f.arguments.contains_key(name) {
        Err(ErrorView::MissingArgument(f.name, name))
    } else {
        match f.arguments[name] {
            ArgumentValueView::Token(token) => Ok(token),
            other => Err(
                ErrorView::IncorrectArgumentType { expected: "token"@, got: kind_name(other) },
            ),
        }
    }
}

/// The stream that a token names on a blockquote.
pub open spec fn stream_named(token: Seq<char>) -> Result<Stream, ErrorView> {
    if token == "output"@ {
        Ok(Stream::Output)
    } else if token == "stdout"@ {
        Ok(Stream::StdOut)
    } else if token == "stderr"@ {
        Ok(Stream::StdErr)
    } else {
        Err(ErrorView::InvalidArgumentValue { got: token, expected: "output, stdout or stderr"@ })
    }
}

/// What the function call `f` asks for on a blockquote. `script` needs the
/// string `name`. `verify` needs the string `script_name` and the token
/// `stream`, looked at in this order. Any other function is unknown.
pub open spec fn blockquote_type(f: FunctionView) -> Result<BlockQuoteTypesView, ErrorView> {
    if f.name == "script"@ {
        match string_argument(f, "name"@) {
            Ok(name) => Ok(BlockQuoteTypesView::Script(name)),
            Err(error) => Err(error),
        }
    } else if f.name == "verify"@ {
        match string_argument(f, "script_name"@) {
            Ok(name) => match token_argument(f, "stream"@) {
                Ok(token) => match stream_named(token) {
                    Ok(stream) => Ok(BlockQuoteTypesView::Verify(SourceView { name, stream })),
                    Err(error) => Err(error),
                },
                Err(error) => Err(error),
            },
            Err(error) => Err(error),
        }
    } else {
        Err(ErrorView::UnknownFunction(f.name))
    }
}

/// What the annotation `input` asks for on a blockquote: what its function
/// call asks for, or the rule of the grammar that the text breaks.
pub open spec fn annotation_type(input: Seq<char>) -> Result<BlockQuoteTypesView, ErrorView> {
    match annotation_call(input) {
        Ok(call) => blockquote_type(call_function(call)),
        Err(violation) => Err(ErrorView::ParserFailed(description(violation))),
    }
}

/// Parses the annotation of a blockquote: a language, a comma and a
/// function call.
pub fn parse(input: &str) -> (result: Result<BlockQuoteTypes, Error>)
    ensures
        result_view(result) == annotation_type(input@),
{
    match parse_annotation(input) {
        Ok(function) => to_blockquote_type(&function),
        Err(violation) => Err(Error::ParserFailed(describe(violation))),
    }
}

/// Works out what a function call asks for on a blockquote.
pub fn to_blockquote_type(f: &Function) -> (result: Result<BlockQuoteTypes, Error>)
    ensures
        result_view(result) == blockquote_type(f@),
{
    if str_eq(f.name.as_str(), "script") {
        let name = get_string_argument(f, "name")?;
        Ok(BlockQuoteTypes::Script(ScriptName(name)))
    } else if str_eq(f.name.as_str(), "verify") {
        let name = ScriptName(get_string_argument(f, "script_name")?);
        let token = get_token_argument(f, "stream")?;
        let stream = to_stream(token.as_str())?;
        Ok(BlockQuoteTypes::Verify(Source { name, stream }))
    } else {
        Err(Error::UnknownFunction(f.name.clone()))
    }
}

/// The stream that `stream_name` names: `output`, `stdout` or `stderr`.
pub fn to_stream(stream_name: &str) -> (result: Result<Stream, Error>)
    ensures
        match result {
            Ok(stream) => stream_named(stream_name@) == Ok::<Stream, ErrorView>(stream),
            Err(error) => stream_named(stream_name@) == Err::<Stream, ErrorView>(error@),
        },
{
    if str_eq(stream_name, "output") {
        Ok(Stream::Output)
    } else if str_eq(stream_name, "stdout") {
        Ok(Stream::StdOut)
    } else if str_eq(stream_name, "stderr") {
        Ok(Stream::StdErr)
    } else {
        Err(
            Error::InvalidArgumentValue {
                got: String::from_str(stream_name),
                expected: String::from_str("output, stdout or stderr"),
            },
        )
    }
}

/// The name of the kind of `value`.
fn kind_of(value: &ArgumentValue) -> (name: String)
    ensures
        name@ == kind_name(value@),
{
    match value {
        ArgumentValue::String(_) => String::from_str("string"),
        ArgumentValue::Token(_) => String::from_str("token"),
        ArgumentValue::Integer(_) => String::from_str("integer"),
    }
}

/// The text of the string argument `name` of `f`.
pub fn get_string_argument(f: &Function, name: &str) -> (result: Result<String, Error>)
    ensures
        result_view(result) == string_argument(f@, name@),
{
    match f.get(name) {
        None => Err(Error::MissingArgument(f.name.clone(), String::from_str(name))),
        Some(ArgumentValue::String(text)) => Ok(text.clone()),
        Some(other) => Err(
            Error::IncorrectArgumentType {
                expected: String::from_str("string"),
                got: kind_of(other),
            },
        ),
    }
}

/// The token argument `name` of `f`.
pub fn get_token_argument(f: &Function, name: &str) -> (result: Result<String, Error>)
    ensures
        result_view(result) == token_argument(f@, name@),
{
    match f.get(name) {
        None => Err(Error::MissingArgument(f.name.clone(), String::from_str(name))),
        Some(ArgumentValue::Token(token)) => Ok(token.clone()),
        Some(other) => Err(
            Error::IncorrectArgumentType {
                expected: String::from_str("token"),
                got: kind_of(other),
            },
        ),
    }
}

} // verus!
