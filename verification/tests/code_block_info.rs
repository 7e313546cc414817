use specdown::parser::code_block_info::{parse, CodeBlockType};
use specdown::parser::error::Error;
use specdown::types::{ExitCode, FilePath, ScriptName, Source, Stream};

#[test]
fn code_block_info_succeeds_when_function_is_script() {
    let result = parse("shell,script(name=\"example-script\")");
    assert_eq!(
        result,
        Ok(CodeBlockType::Script(
            ScriptName("example-script".to_string(),),
            None
        ))
    )
}

#[test]
fn succeeds_when_function_is_script_with_expected_exit_code() {
    let result = parse("shell,script(name=\"example-script\", expected_exit_code=2)");
    assert_eq!(
        result,
        Ok(CodeBlockType::Script(
            ScriptName("example-script".to_string(),),
            Some(ExitCode(2))
        ))
    )
}

#[test]
fn code_block_info_fails_when_name_is_missing() {
    let result = parse("shell,script()");
    assert_eq!(
        result,
        Err(Error::MissingArgument {
            function: "script".to_string(),
            argument: "name".to_string()
        })
    )
}

#[test]
fn code_block_info_succeeds_when_function_is_verify_and_stream_is_stdout() {
    let result = parse(",verify(script_name=\"example-script\", stream=stdout)");
    assert_eq!(
        result,
        Ok(CodeBlockType::Verify(Source {
            name: ScriptName("example-script".to_string()),
            stream: Stream::StdOut
        }))
    )
}

#[test]
fn code_block_info_succeeds_when_function_is_verify_and_stream_is_stderr() {
    let result = parse(",verify(script_name=\"example-script\", stream=stderr)");
    assert_eq!(
        result,
        Ok(CodeBlockType::Verify(Source {
            name: ScriptName("example-script".to_string()),
            stream: Stream::StdErr
        }))
    )
}

#[test]
fn code_block_info_fails_when_function_is_verify_and_stream_is_unknown() {
    let result = parse(",verify(script_name=\"example-script\", stream=unknown)");
    assert_eq!(
        result,
        Err(Error::InvalidArgumentValue {
            function: "verify".to_string(),
            argument: "stream".to_string(),
            expected: "stdout or stderr".to_string(),
            got: "unknown".to_string(),
        })
    )
}

#[test]
fn code_block_info_fails_when_script_name_is_missing() {
    let result = parse("shell,verify(stream=stderr)");
    assert_eq!(
        result,
        Err(Error::MissingArgument {
            function: "verify".to_string(),
            argument: "script_name".to_string()
        })
    )
}

#[test]
fn code_block_info_fails_when_stream_is_missing() {
    let result = parse("shell,verify(script_name=\"the-script\")");
    assert_eq!(
        result,
        Err(Error::MissingArgument {
            function: "verify".to_string(),
            argument: "stream".to_string()
        })
    )
}

#[test]
fn succeeds_when_function_is_file() {
    let result = parse("text,file(path=\"example.txt\")");
    assert_eq!(
        result,
        Ok(CodeBlockType::CreateFile(FilePath(
            "example.txt".to_string()
        )))
    )
}

#[test]
fn fails_when_path_is_missing() {
    let result = parse("text,file()");
    assert_eq!(
        result,
        Err(Error::MissingArgument {
            function: "file".to_string(),
            argument: "path".to_string()
        })
    )
}
