//! Annotations on code blocks: `script(name="..")`, optionally with
//! `expected_exit_code=..`; `verify(script_name="..", stream=..)`, where
//! the stream is `stdout` or `stderr`; and `file(path="..")`.

use crate::parser::error::{Error, ErrorView};
use crate::parser::function_string::{
    call_function, describe, description, parse_annotation, ArgumentValue, ArgumentValueView,
    Function, FunctionView,
};
use crate::parser::grammar::annotation_call;
use crate::text::{result_view, str_eq};
use crate::types::{ExitCode, FilePath, ScriptName, Source, SourceView, Stream};
use vstd::prelude::*;
use vstd::string::*;

verus! {

/// What a code block asks for.
#[derive(Debug, PartialEq)]
pub enum CodeBlockType {
    /// The block holds the script with this name, which is expected to end
    /// with this exit code, where one is given.
    Script(ScriptName, Option<ExitCode>),
    /// The block holds what this stream is expected to be.
    Verify(Source),
    /// The block holds what the file at this path is to contain.
    CreateFile(FilePath),
}

/// What a `CodeBlockType` stands for in specifications.
pub enum CodeBlockTypeView {
    Script(Seq<char>, Option<ExitCode>),
    Verify(SourceView),
    CreateFile(Seq<char>),
}

impl View for CodeBlockType {
    type V = CodeBlockTypeView;

    open spec fn view(&self) -> CodeBlockTypeView {
        match self {
            CodeBlockType::Script(name, expected_exit_code) => CodeBlockTypeView::Script(
                name@,
                *expected_exit_code,
            ),
            CodeBlockType::Verify(source) => CodeBlockTypeView::Verify(source@),
            CodeBlockType::CreateFile(path) => CodeBlockTypeView::CreateFile(path@),
        }
    }
}

/// The error for an argument whose value is of the kind `got` where the
/// kind `expected` is needed.
pub open spec fn incorrect_argument_type(
    f: FunctionView,
    argument: Seq<char>,
    expected: Seq<char>,
    got: Seq<char>,
) -> ErrorView {
    ErrorView::IncorrectArgumentType { function: f.name, argument, expected, got }
}

/// The value of the argument `name` of `f`: an error when `f` has no such
/// argument.
pub open spec fn required_argument(f: FunctionView, name: Seq<char>) -> Result<
    ArgumentValueView,
    ErrorView,
> {
    if f.arguments.contains_key(name) {
        Ok(f.arguments[name])
    } else {
        Err(ErrorView::MissingArgument { function: f.name, argument: name })
    }
}

/// The number that the integer argument `name` of `f` holds.
pub open spec fn integer_argument(f: FunctionView, name: Seq<char>) -> Result<u32, ErrorView> {
    match required_argument(f, name) {
        Ok(ArgumentValueView::Integer(number)) => Ok(number),
        Ok(ArgumentValueView::String(_)) => Err(
            incorrect_argument_type(f, name, "integer"@, "string"@),
        ),
        Ok(ArgumentValueView::Token(_)) => Err(
            incorrect_argument_type(f, name, "integer"@, "token"@),
        ),
        Err(error) => Err(error),
    }
}

/// The text that the string argument `name` of `f` holds.
pub open spec fn string_argument(f: FunctionView, name: Seq<char>) -> Result<Seq<char>, ErrorView> {
    match required_argument(f, name) {
        Ok(ArgumentValueView::String(text)) => Ok(text),
        Ok(ArgumentValueView::Integer(_)) => Err(
            incorrect_argument_type(f, name, "string"@, "integer"@),
        ),
        Ok(ArgumentValueView::Token(_)) => Err(
            incorrect_argument_type(f, name, "string"@, "token"@),
        ),
        Err(error) => Err(error),
    }
}

/// The token that the token argument `name` of `f` holds.
pub open spec fn token_argument(f: FunctionView, name: Seq<char>) -> Result<Seq<char>, ErrorView> {
    match required_argument(f, name) {
        Ok(ArgumentValueView::Token(token)) => Ok(token),
        Ok(ArgumentValueView::Integer(_)) => Err(
            incorrect_argument_type(f, name, "token"@, "integer"@),
        ),
        Ok(ArgumentValueView::String(_)) => Err(
            incorrect_argument_type(f, name, "token"@, "string"@),
        ),
        Err(error) => Err(error),
    }
}

/// The stream that a token names on a code block, if it names one.
pub open spec fn stream_named(token: Seq<char>) -> Option<Stream> {
    if token == "stdout"@ {
        Some(Stream::StdOut)
    } else if token == "stderr"@ {
        Some(Stream::StdErr)
    } else {
        None
    }
}

/// What a `script` call asks for: it needs the string `name`, and may have
/// the integer `expected_exit_code`.
pub open spec fn script_block(f: FunctionView) -> Result<CodeBlockTypeView, ErrorView> {
    match string_argument(f, "name"@) {
        Ok(name) => if f.arguments.contains_key("expected_exit_code"@) {
            match integer_argument(f, "expected_exit_code"@) {
                Ok(number) => Ok(CodeBlockTypeView::Script(name, Some(ExitCode(number)))),
                Err(error) => Err(error),
            }
        } else {
            Ok(CodeBlockTypeView::Script(name, None))
        },
        Err(error) => Err(error),
    }
}

/// What a `file` call asks for: it needs the string `path`.
pub open spec fn file_block(f: FunctionView) -> Result<CodeBlockTypeView, ErrorView> {
    match string_argument(f, "path"@) {
        Ok(path) => Ok(CodeBlockTypeView::CreateFile(path)),
        Err(error) => Err(error),
    }
}

/// What a `verify` call asks for: it needs the string `script_name` and
/// the token `stream`, looked at in this order, and the token has to name
/// a stream.
pub open spec fn verify_block(f: FunctionView) -> Result<CodeBlockTypeView, ErrorView> {
    match string_argument(f, "script_name"@) {
        Ok(name) => match token_argument(f, "stream"@) {
            Ok(token) => match stream_named(token) {
                Some(stream) => Ok(CodeBlockTypeView::Verify(SourceView { name, stream })),
                None => Err(
                    ErrorView::InvalidArgumentValue {
                        function: f.name,
                        argument: "stream"@,
                        expected: "stdout or stderr"@,
                        got: token,
                    },
                ),
            },
            Err(error) => Err(error),
        },
        Err(error) => Err(error),
    }
}

/// What the function call `f` asks for on a code block.
pub open spec fn code_block_type(f: FunctionView) -> Result<CodeBlockTypeView, ErrorView> {
    if f.name == "script"@ {
        script_block(f)
    } else if f.name == "verify"@ {
        verify_block(f)
    } else if f.name == "file"@ {
        file_block(f)
    } else {
        Err(ErrorView::UnknownFunction(f.name))
    }
}

/// What the annotation `input` asks for on a code block: what its function
/// call asks for, or the rule of the grammar that the text breaks.
pub open spec fn annotation_type(input: Seq<char>) -> Result<CodeBlockTypeView, ErrorView> {
    match annotation_call(input) {
        Ok(call) => code_block_type(call_function(call)),
        Err(violation) => Err(ErrorView::ParserFailed(description(violation))),
    }
}

/// Parses the annotation of a code block: a language, a comma and a
/// function call.
pub fn parse(input: &str) -> (result: Result<CodeBlockType, Error>)
    ensures
        result_view(result) == annotation_type(input@),
{
    match parse_annotation(input) {
        Ok(function) => to_code_block_type(&function),
        Err(violation) => Err(Error::ParserFailed(describe(violation))),
    }
}

/// Works out what a function call asks for on a code block.
pub fn to_code_block_type(f: &Function) -> (result: Result<CodeBlockType, Error>)
    ensures
        result_view(result) == code_block_type(f@),
{
    if str_eq(f.name.as_str(), "script") {
        script_to_code_block_type(f)
    } else if str_eq(f.name.as_str(), "verify") {
        verify_to_code_block_type(f)
    } else if str_eq(f.name.as_str(), "file") {
        file_to_code_block_type(f)
    } else {
        Err(Error::UnknownFunction(f.name.clone()))
    }
}

/// Works out what a `script` call asks for.
pub fn script_to_code_block_type(f: &Function) -> (result: Result<CodeBlockType, Error>)
    ensures
        result_view(result) == script_block(f@),
{
    let name = get_string_argument(f, "name")?;
    let expected_exit_code = if f.has_argument("expected_exit_code") {
        Some(ExitCode(get_integer_argument(f, "expected_exit_code")?))
    } else {
        None
    };
    Ok(CodeBlockType::Script(ScriptName(name), expected_exit_code))
}

/// Works out what a `file` call asks for.
pub fn file_to_code_block_type(f: &Function) -> (result: Result<CodeBlockType, Error>)
    ensures
        result_view(result) == file_block(f@),
{
    let path = get_string_argument(f, "path")?;
    Ok(CodeBlockType::CreateFile(FilePath(path)))
}

/// Works out what a `verify` call asks for.
pub fn verify_to_code_block_type(f: &Function) -> (result: Result<CodeBlockType, Error>)
    ensures
        result_view(result) == verify_block(f@),
{
    let name = ScriptName(get_string_argument(f, "script_name")?);
    let stream_name = get_token_argument(f, "stream")?;
    match to_stream(stream_name.as_str()) {
        Some(stream) => Ok(CodeBlockType::Verify(Source { name, stream })),
        None => Err(
            Error::InvalidArgumentValue {
                function: f.name.clone(),
                argument: String::from_str("stream"),
                got: stream_name,
                expected: String::from_str("stdout or stderr"),
            },
        ),
    }
}

/// The stream that `stream_name` names: `stdout` or `stderr`.
pub fn to_stream(stream_name: &str) -> (stream: Option<Stream>)
    ensures
        stream == stream_named(stream_name@),
{
    if str_eq(stream_name, "stdout") {
        Some(Stream::StdOut)
    } else if str_eq(stream_name, "stderr") {
        Some(Stream::StdErr)
    } else {
        None
    }
}

/// The number that the integer argument `name` of `f` holds.
pub fn get_integer_argument(f: &Function, name: &str) -> (result: Result<u32, Error>)
    ensures
        match result {
            Ok(number) => integer_argument(f@, name@) == Ok::<u32, ErrorView>(number),
            Err(error) => integer_argument(f@, name@) == Err::<u32, ErrorView>(error@),
        },
{
    match get_required_argument(f, name)? {
        ArgumentValue::Integer(number) => Ok(*number),
        ArgumentValue::String(_) => incorrect_argument_type_error(f, name, "integer", "string"),
        ArgumentValue::Token(_) => incorrect_argument_type_error(f, name, "integer", "token"),
    }
}

/// The text that the string argument `name` of `f` holds.
pub fn get_string_argument(f: &Function, name: &str) -> (result: Result<String, Error>)
    ensures
        result_view(result) == string_argument(f@, name@),
{
    match get_required_argument(f, name)? {
        ArgumentValue::String(text) => Ok(text.clone()),
        ArgumentValue::Integer(_) => incorrect_argument_type_error(f, name, "string", "integer"),
        ArgumentValue::Token(_) => incorrect_argument_type_error(f, name, "string", "token"),
    }
}

/// The token that the token argument `name` of `f` holds.
pub fn get_token_argument(f: &Function, name: &str) -> (result: Result<String, Error>)
    ensures
        result_view(result) == token_argument(f@, name@),
{
    match get_required_argument(f, name)? {
        ArgumentValue::Token(token) => Ok(token.clone()),
        ArgumentValue::Integer(_) => incorrect_argument_type_error(f, name, "token", "integer"),
        ArgumentValue::String(_) => incorrect_argument_type_error(f, name, "token", "string"),
    }
}

/// The value of the argument `name` of `f`.
pub fn get_required_argument<'a>(f: &'a Function, name: &str) -> (result: Result<
    &'a ArgumentValue,
    Error,
>)
    ensures
        result_view(result) == required_argument(f@, name@),
{
    match f.get(name) {
        Some(value) => Ok(value),
        None => Err(
            Error::MissingArgument { function: f.name.clone(), argument: String::from_str(name) },
        ),
    }
}

/// The error for the argument `argument` of `f`, whose value is of the kind
/// `got` where the kind `expected` is needed.
pub fn incorrect_argument_type_error<T>(
    f: &Function,
    argument: &str,
    expected: &str,
    got: &str,
) -> (result: Result<T, Error>)
    ensures
        result matches Err(error) && error@ == incorrect_argument_type(
            f@,
            argument@,
            expected@,
            got@,
        ),
{
    Err(
        Error::IncorrectArgumentType {
            function: f.name.clone(),
            argument: String::from_str(argument),
            expected: String::from_str(expected),
            got: String::from_str(got),
        },
    )
}

} // verus!
