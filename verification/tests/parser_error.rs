use specdown::parser::blockquote_info;
use specdown::parser::code_block_info::{
    get_integer_argument, get_string_argument, get_token_argument, parse, to_code_block_type,
    to_stream, CodeBlockType,
};
use specdown::parser::error::Error;
use specdown::parser::function_string::{Argument, ArgumentValue, Function};
use specdown::parser::DocumentError;
use specdown::types::{ExitCode, ScriptName, Stream};

fn call(name: &str, arguments: Vec<(&str, ArgumentValue)>) -> Function {
    Function {
        name: name.to_string(),
        arguments: arguments
            .into_iter()
            .map(|(name, value)| Argument { name: name.to_string(), value })
            .collect(),
    }
}

fn text(value: &str) -> ArgumentValue {
    ArgumentValue::String(value.to_string())
}

fn token(value: &str) -> ArgumentValue {
    ArgumentValue::Token(value.to_string())
}

#[test]
fn describes_each_error() {
    assert_eq!(
        Error::ParserFailed("reason".to_string()).to_string(),
        "The parser failed: reason"
    );
    assert_eq!(Error::UnknownFunction("funcy".to_string()).to_string(), "Unknown function: funcy");
    assert_eq!(
        Error::MissingArgument { function: "funcy".to_string(), argument: "argy".to_string() }
            .to_string(),
        "Function funcy requires argument argy"
    );
    assert_eq!(
        Error::IncorrectArgumentType {
            function: "funcy".to_string(),
            argument: "argy".to_string(),
            expected: "token".to_string(),
            got: "string".to_string()
        }
        .to_string(),
        "Function funcy requires argument argy to be a token, got string"
    );
    assert_eq!(
        Error::InvalidArgumentValue {
            function: "funcy".to_string(),
            argument: "argy".to_string(),
            expected: "true or false".to_string(),
            got: "maybe".to_string()
        }
        .to_string(),
        "Argument argy for function funcy must be true or false, got maybe"
    );
    assert_eq!(
        DocumentError::CodeBlock(Error::UnknownFunction("funcy".to_string())).to_string(),
        "Unknown function: funcy"
    );
    assert_eq!(
        DocumentError::BlockQuote(blockquote_info::Error::IncorrectArgumentType {
            expected: "token".to_string(),
            got: "string".to_string()
        })
        .to_string(),
        "Invalid argument type. Expected token, got string"
    );
}

#[test]
fn refuses_an_unknown_function() {
    assert_eq!(
        parse("shell,run(name=\"a\")"),
        Err(Error::UnknownFunction("run".to_string()))
    );
    assert_eq!(
        blockquote_info::parse("shell,file(path=\"a\")"),
        Err(blockquote_info::Error::UnknownFunction("file".to_string()))
    );
}

#[test]
fn refuses_text_that_is_no_annotation() {
    assert_eq!(
        parse("shell"),
        Err(Error::ParserFailed("expected ',' after the language".to_string()))
    );
    assert_eq!(
        parse("shell,script(name=example)x"),
        Err(Error::IncorrectArgumentType {
            function: "script".to_string(),
            argument: "name".to_string(),
            expected: "string".to_string(),
            got: "token".to_string()
        })
    );
    assert_eq!(
        parse("shell,script(name=\"example\""),
        Err(Error::ParserFailed("expected ',' or ')' after the argument".to_string()))
    );
    assert_eq!(
        blockquote_info::parse("shell,script(name"),
        Err(blockquote_info::Error::ParserFailed(
            "expected '=' after the name of the argument".to_string()
        ))
    );
}

#[test]
fn refuses_values_of_the_wrong_kind() {
    let wrong = |argument: &str, expected: &str, got: &str| Error::IncorrectArgumentType {
        function: "f".to_string(),
        argument: argument.to_string(),
        expected: expected.to_string(),
        got: got.to_string(),
    };
    let f = call("f", vec![("s", text("x")), ("t", token("x")), ("i", ArgumentValue::Integer(5))]);
    assert_eq!(get_string_argument(&f, "s"), Ok("x".to_string()));
    assert_eq!(get_string_argument(&f, "t"), Err(wrong("t", "string", "token")));
    assert_eq!(get_string_argument(&f, "i"), Err(wrong("i", "string", "integer")));
    assert_eq!(get_token_argument(&f, "t"), Ok("x".to_string()));
    assert_eq!(get_token_argument(&f, "s"), Err(wrong("s", "token", "string")));
    assert_eq!(get_token_argument(&f, "i"), Err(wrong("i", "token", "integer")));
    assert_eq!(get_integer_argument(&f, "i"), Ok(5));
    assert_eq!(get_integer_argument(&f, "s"), Err(wrong("s", "integer", "string")));
    assert_eq!(get_integer_argument(&f, "t"), Err(wrong("t", "integer", "token")));
    assert_eq!(
        get_integer_argument(&f, "missing"),
        Err(Error::MissingArgument { function: "f".to_string(), argument: "missing".to_string() })
    );
}

#[test]
fn refuses_values_of_the_wrong_kind_on_blockquotes() {
    let wrong = |expected: &str, got: &str| blockquote_info::Error::IncorrectArgumentType {
        expected: expected.to_string(),
        got: got.to_string(),
    };
    let f = call("f", vec![("s", text("x")), ("t", token("x")), ("i", ArgumentValue::Integer(5))]);
    assert_eq!(blockquote_info::get_string_argument(&f, "s"), Ok("x".to_string()));
    assert_eq!(blockquote_info::get_string_argument(&f, "t"), Err(wrong("string", "token")));
    assert_eq!(blockquote_info::get_string_argument(&f, "i"), Err(wrong("string", "integer")));
    assert_eq!(blockquote_info::get_token_argument(&f, "t"), Ok("x".to_string()));
    assert_eq!(blockquote_info::get_token_argument(&f, "s"), Err(wrong("token", "string")));
    assert_eq!(blockquote_info::get_token_argument(&f, "i"), Err(wrong("token", "integer")));
    assert_eq!(blockquote_info::to_stream("output"), Ok(Stream::Output));
    assert_eq!(blockquote_info::to_stream("stdout"), Ok(Stream::StdOut));
    assert_eq!(blockquote_info::to_stream("stderr"), Ok(Stream::StdErr));
}

#[test]
fn a_code_block_knows_no_combined_output() {
    assert_eq!(to_stream("stdout"), Some(Stream::StdOut));
    assert_eq!(to_stream("stderr"), Some(Stream::StdErr));
    assert_eq!(to_stream("output"), None);
    assert_eq!(
        parse("text,verify(script_name=\"s\", stream=output)"),
        Err(Error::InvalidArgumentValue {
            function: "verify".to_string(),
            argument: "stream".to_string(),
            expected: "stdout or stderr".to_string(),
            got: "output".to_string(),
        })
    );
}

#[test]
fn the_exit_code_of_a_script_has_to_be_a_number() {
    assert_eq!(
        parse("shell,script(name=\"s\", expected_exit_code=\"2\")"),
        Err(Error::IncorrectArgumentType {
            function: "script".to_string(),
            argument: "expected_exit_code".to_string(),
            expected: "integer".to_string(),
            got: "string".to_string()
        })
    );
    assert_eq!(
        parse("shell,script(expected_exit_code=2, name=\"s\")"),
        Ok(CodeBlockType::Script(ScriptName("s".to_string()), Some(ExitCode(2))))
    );
}

#[test]
fn reads_a_call_built_by_hand() {
    let f = call("script", vec![("name", text("n"))]);
    assert_eq!(
        to_code_block_type(&f),
        Ok(CodeBlockType::Script(ScriptName("n".to_string()), None))
    );
    let g = call("script", vec![("name", text("old")), ("name", text("new"))]);
    assert_eq!(
        to_code_block_type(&g),
        Ok(CodeBlockType::Script(ScriptName("new".to_string()), None))
    );
}
