use specdown::parser::blockquote_info::{parse, BlockQuoteTypes, Error};
use specdown::types::{ScriptName, Source, Stream};

#[test]
fn display_parser_failed() {
    assert_eq!(
        Error::ParserFailed("reason".to_string()).to_string(),
        "The parser failed: reason"
    )
}

#[test]
fn display_unknown_function() {
    assert_eq!(
        Error::UnknownFunction("funcy".to_string()).to_string(),
        "Unknown function: funcy"
    )
}

#[test]
fn display_missing_argument() {
    assert_eq!(
        Error::MissingArgument("funcy".to_string(), "argy".to_string()).to_string(),
        "Function funcy requires argument argy"
    )
}

#[test]
fn display_incorrect_argument_type() {
    assert_eq!(
        Error::IncorrectArgumentType {
            expected: "token".to_string(),
            got: "string".to_string()
        }
        .to_string(),
        "Invalid argument type. Expected token, got string"
    )
}

#[test]
fn display_invalid_argument_value() {
    assert_eq!(
        Error::InvalidArgumentValue {
            expected: "true or false".to_string(),
            got: "maybe".to_string()
        }
        .to_string(),
        "Invalid argument value. Expected true or false, got maybe"
    )
}

#[test]
fn blockquote_info_succeeds_when_function_is_script() {
    let result = parse("shell,script(name=\"example-script\")");
    assert_eq!(
        result,
        Ok(BlockQuoteTypes::Script(ScriptName(
            "example-script".to_string()
        )))
    )
}

#[test]
fn blockquote_info_fails_when_name_is_missing() {
    let result = parse("shell,script()");
    assert_eq!(
        result,
        Err(Error::MissingArgument(
            "script".to_string(),
            "name".to_string()
        ))
    )
}

#[test]
fn succeeds_when_function_is_verify_and_stream_is_output() {
    let result = parse(",verify(script_name=\"example-script\", stream=output)");
    assert_eq!(
        result,
        Ok(BlockQuoteTypes::Verify(Source {
            name: ScriptName("example-script".to_string()),
            stream: Stream::Output
        }))
    )
}

#[test]
fn blockquote_info_succeeds_when_function_is_verify_and_stream_is_stdout() {
    let result = parse(",verify(script_name=\"example-script\", stream=stdout)");
    assert_eq!(
        result,
        Ok(BlockQuoteTypes::Verify(Source {
            name: ScriptName("example-script".to_string()),
            stream: Stream::StdOut
        }))
    )
}

#[test]
fn blockquote_info_succeeds_when_function_is_verify_and_stream_is_stderr() {
    let result = parse(",verify(script_name=\"example-script\", stream=stderr)");
    assert_eq!(
        result,
        Ok(BlockQuoteTypes::Verify(Source {
            name: ScriptName("example-script".to_string()),
            stream: Stream::StdErr
        }))
    )
}

#[test]
fn blockquote_info_fails_when_function_is_verify_and_stream_is_unknown() {
    let result = parse(",verify(script_name=\"example-script\", stream=unknown)");
    assert_eq!(
        result,
        Err(Error::InvalidArgumentValue {
            got: "unknown".to_string(),
            expected: "output, stdout or stderr".to_string()
        })
    )
}

#[test]
fn blockquote_info_fails_when_script_name_is_missing() {
    let result = parse("shell,verify(stream=stderr)");
    assert_eq!(
        result,
        Err(Error::MissingArgument(
            "verify".to_string(),
            "script_name".to_string()
        ))
    )
}

#[test]
fn blockquote_info_fails_when_stream_is_missing() {
    let result = parse("shell,verify(script_name=\"the-script\")");
    assert_eq!(
        result,
        Err(Error::MissingArgument(
            "verify".to_string(),
            "stream".to_string()
        ))
    )
}
