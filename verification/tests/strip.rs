use specdown::parser::markdown::{Node, NodeKind};
use specdown::parser::strip::{languages, strip};

#[test]
fn test_strip() {
    let markdown = "# Header\n\n```shell, script(name=\"something\")\nrun\n```\n";

    let expected = "# Header\n\n``` shell\nrun\n```\n";

    assert_eq!(strip(markdown), expected.to_string());
}

#[test]
fn strip_keeps_blocks_without_annotation() {
    let markdown = "Text\n\n``` rust\nlet x = 1;\n```\n";
    assert_eq!(strip(markdown), markdown.to_string());
}

fn code_block(info: &str, literal: &str) -> Node {
    Node {
        depth: 2,
        kind: NodeKind::CodeBlock { info: info.to_string(), literal: literal.to_string() },
    }
}

#[test]
fn each_code_block_keeps_its_language() {
    let nodes = vec![
        Node { depth: 1, kind: NodeKind::Other },
        code_block("shell,script(name=\"a,b\")", "ls\n"),
        code_block("rust", ""),
        Node { depth: 2, kind: NodeKind::BlockQuote },
        Node { depth: 3, kind: NodeKind::Paragraph },
        Node { depth: 4, kind: NodeKind::Text("shell,script(name=\"q\")".to_string()) },
        code_block("", ""),
        code_block(",verify()", ""),
    ];
    assert_eq!(
        languages(&nodes),
        vec![
            None,
            Some("shell".to_string()),
            Some("rust".to_string()),
            None,
            None,
            None,
            Some("".to_string()),
            Some("".to_string()),
        ]
    );
}

#[test]
fn strip_passes_over_what_is_no_code_block() {
    let markdown = "> shell,script(name=\"a\")\n\n``` text,verify(script_name=\"a\", stream=stdout)\nout\n```\n";
    let expected = "> shell,script(name=\"a\")\n\n``` text\nout\n```\n";
    assert_eq!(strip(markdown), expected.to_string());
}
