use specdown::parser::blockquote_info;
use specdown::parser::error::Error;
use specdown::parser::function_string::calls_function;
use specdown::parser::markdown::{Node, NodeKind};
use specdown::parser::quote::split_quote;
use specdown::parser::{blocks_of, parse, to_action, to_actions, Block, DocumentError};
use specdown::types::{Action, ExitCode, FilePath, ScriptName, Source, Stream};

#[test]
fn a_document_gives_its_actions_in_order() {
    let markdown = "# Title\n\nSome text.\n\n```text,file(path=\"a.txt\")\ncontent\n```\n\n```shell,script(name=\"s\", expected_exit_code=1)\ncat a.txt\nexit 1\n```\n\n```text,verify(script_name=\"s\", stream=stderr)\n```\n";
    assert_eq!(
        parse(markdown),
        Ok(vec![
            Action::CreateFile {
                path: FilePath("a.txt".to_string()),
                content: "content\n".to_string()
            },
            Action::Script {
                name: ScriptName("s".to_string()),
                code: "cat a.txt\nexit 1\n".to_string(),
                expected_exit_code: Some(ExitCode(1)),
            },
            Action::Verify {
                source: Source { name: ScriptName("s".to_string()), stream: Stream::StdErr },
                expected_value: "".to_string(),
            },
        ])
    );
}

#[test]
fn code_blocks_without_annotation_are_passed_over() {
    let markdown = "```rust\nfn main() {}\n```\n\n```\nplain\n```\n\n    indented\n\n- item\n\n  ```shell,script(name=\"nested\")\n  ls\n  ```\n";
    assert_eq!(
        parse(markdown),
        Ok(vec![Action::Script {
            name: ScriptName("nested".to_string()),
            code: "ls\n".to_string(),
            expected_exit_code: None,
        }])
    );
    assert_eq!(parse(""), Ok(vec![]));
    assert_eq!(parse("Just text.\n"), Ok(vec![]));
}

#[test]
fn the_first_annotation_that_is_refused_ends_the_translation() {
    let markdown = "```shell,script(name=\"s\")\nls\n```\n\n```shell,script()\nls\n```\n\n```shell,unknown()\nls\n```\n";
    assert_eq!(
        parse(markdown),
        Err(DocumentError::CodeBlock(Error::MissingArgument {
            function: "script".to_string(),
            argument: "name".to_string()
        }))
    );
}

#[test]
fn a_blockquote_gives_a_script_or_a_comparison() {
    let blocks = vec![
        Block::Quote {
            annotation: "shell,script(name=\"s\")".to_string(),
            body: "echo hi\n".to_string(),
        },
        Block::Quote {
            annotation: ",verify(script_name=\"s\", stream=output)".to_string(),
            body: "hi\n".to_string(),
        },
        Block::Code {
            info: "text,verify(script_name=\"s\", stream=stdout)".to_string(),
            body: "hi\n".to_string(),
        },
    ];
    assert_eq!(
        to_actions(&blocks),
        Ok(vec![
            Action::Script {
                name: ScriptName("s".to_string()),
                code: "echo hi\n".to_string(),
                expected_exit_code: None,
            },
            Action::Verify {
                source: Source { name: ScriptName("s".to_string()), stream: Stream::Output },
                expected_value: "hi\n".to_string(),
            },
            Action::Verify {
                source: Source { name: ScriptName("s".to_string()), stream: Stream::StdOut },
                expected_value: "hi\n".to_string(),
            },
        ])
    );
    let refused = Block::Quote {
        annotation: ",verify(script_name=\"s\", stream=unknown)".to_string(),
        body: "hi\n".to_string(),
    };
    assert_eq!(
        to_action(&refused),
        Err(DocumentError::BlockQuote(blockquote_info::Error::InvalidArgumentValue {
            got: "unknown".to_string(),
            expected: "output, stdout or stderr".to_string()
        }))
    );
}

#[test]
fn blockquotes_of_a_document_give_actions() {
    let markdown = "Run this:\n\n> shell,script(name=\"s\")\n> echo hello\n> echo world\n\nand expect:\n\n> text,verify(script_name=\"s\", stream=output)\n> hello\n\n```text,verify(script_name=\"s\", stream=stdout)\nhello\n```\n";
    assert_eq!(
        parse(markdown),
        Ok(vec![
            Action::Script {
                name: ScriptName("s".to_string()),
                code: "echo hello\necho world\n".to_string(),
                expected_exit_code: None,
            },
            Action::Verify {
                source: Source { name: ScriptName("s".to_string()), stream: Stream::Output },
                expected_value: "hello\n".to_string(),
            },
            Action::Verify {
                source: Source { name: ScriptName("s".to_string()), stream: Stream::StdOut },
                expected_value: "hello\n".to_string(),
            },
        ])
    );
}

#[test]
fn blockquotes_that_call_no_function_are_passed_over() {
    let markdown = "> Note, this is only a remark.\n\n> A quote without any comma\n\n> see,this (too)\n\n> shell,script(name=\"s\")\n";
    assert_eq!(
        parse(markdown),
        Ok(vec![Action::Script {
            name: ScriptName("s".to_string()),
            code: "".to_string(),
            expected_exit_code: None,
        }])
    );
}

#[test]
fn a_blockquote_with_a_refused_annotation_ends_the_work() {
    let markdown = "> text,verify(script_name=\"s\", stream=unknown)\n> hello\n";
    assert_eq!(
        parse(markdown),
        Err(DocumentError::BlockQuote(blockquote_info::Error::InvalidArgumentValue {
            got: "unknown".to_string(),
            expected: "output, stdout or stderr".to_string()
        }))
    );
    let markdown = "> shell,script(name\n> ls\n";
    assert_eq!(
        parse(markdown),
        Err(DocumentError::BlockQuote(blockquote_info::Error::ParserFailed(
            "expected '=' after the name of the argument".to_string()
        )))
    );
}

#[test]
fn the_text_of_a_blockquote_is_made_of_the_nodes_below_it() {
    let text = |text: &str, depth: usize| Node { depth, kind: NodeKind::Text(text.to_string()) };
    let nodes = vec![
        Node { depth: 1, kind: NodeKind::Other },
        Node { depth: 2, kind: NodeKind::BlockQuote },
        Node { depth: 3, kind: NodeKind::Paragraph },
        text("shell,scr", 4),
        Node { depth: 4, kind: NodeKind::Other },
        text("ipt(name=\"s\")", 5),
        Node { depth: 4, kind: NodeKind::Break },
        text("one", 4),
        Node { depth: 3, kind: NodeKind::Paragraph },
        text("two", 4),
        Node { depth: 2, kind: NodeKind::Paragraph },
        text("after,f()", 3),
        Node { depth: 2, kind: NodeKind::BlockQuote },
    ];
    assert_eq!(
        blocks_of(&nodes),
        vec![Block::Quote {
            annotation: "shell,script(name=\"s\")".to_string(),
            body: "one\ntwo\n".to_string(),
        }]
    );
    assert_eq!(blocks_of(&[]), vec![]);
}

#[test]
fn a_quote_is_split_after_its_first_line() {
    assert_eq!(split_quote("a,f()\nb\nc"), ("a,f()".to_string(), "b\nc\n".to_string()));
    assert_eq!(split_quote("a,f()"), ("a,f()".to_string(), "".to_string()));
    assert_eq!(split_quote("a,f()\n"), ("a,f()".to_string(), "\n".to_string()));
    assert_eq!(split_quote(""), ("".to_string(), "".to_string()));
    assert!(calls_function("shell,script(name"));
    assert!(calls_function(",f("));
    assert!(!calls_function("shell, script()"));
    assert!(!calls_function("shell,script"));
    assert!(!calls_function("shell,script ()"));
    assert!(!calls_function("shell,"));
    assert!(!calls_function("shell"));
}
