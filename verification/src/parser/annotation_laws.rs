//! What the annotations of the three functions come to, for every name,
//! path, exit code and stream that can be written.

use crate::assoc::{assoc_map, lemma_assoc_push};
use crate::parser::blockquote_info;
use crate::parser::error::ErrorView;
use crate::parser::function_string::ArgumentValueView;
use crate::parser::grammar::{annotation_call, Call, Entry};
use crate::parser::rendering::{
    decimal_digits, is_name, is_string_body, lemma_annotation_read_back, render_argument,
    render_call, render_more,
};
use crate::parser::{block_action, BlockView, DocumentErrorView};
use crate::types::{ActionView, ExitCode, SourceView, Stream};
use vstd::prelude::*;

verus! {

/// Whether `language` can stand before an annotation: it has no comma.
pub open spec fn is_language(language: Seq<char>) -> bool {
    forall|k: int| 0 <= k < language.len() ==> #[trigger] language[k] != ','
}

/// The info string of a code block: a language, a comma, a call, and
/// whatever follows.
pub open spec fn info_string(language: Seq<char>, call: Seq<char>, rest: Seq<char>) -> Seq<char> {
    language + seq![','] + call + rest
}

/// The names that the three functions and their arguments go by are
/// names of the grammar, and differ from each other.
pub proof fn lemma_known_names()
    ensures
        is_name("script"@),
        is_name("verify"@),
        is_name("file"@),
        is_name("name"@),
        is_name("expected_exit_code"@),
        is_name("script_name"@),
        is_name("stream"@),
        is_name("path"@),
        "script"@ != "verify"@,
        "script"@ != "file"@,
        "verify"@ != "file"@,
        "name"@ != "expected_exit_code"@,
        "script_name"@ != "stream"@,
{
    reveal_strlit("script");
    reveal_strlit("verify");
    reveal_strlit("file");
    reveal_strlit("name");
    reveal_strlit("expected_exit_code");
    reveal_strlit("script_name");
    reveal_strlit("stream");
    reveal_strlit("path");
    assert("script"@[0] == 's' && "verify"@[0] == 'v');
}

/// A list of one entry maps its name to its value, and nothing else.
pub proof fn lemma_one_entry(entry: Entry)
    ensures
        assoc_map(seq![entry]) == Map::<Seq<char>, ArgumentValueView>::empty().insert(
            entry.0,
            entry.1,
        ),
{
    let none = Seq::<Entry>::empty();
    lemma_assoc_push(none, entry.0, entry.1);
    assert(none.push(entry) == seq![entry]);
}

/// A list of two entries maps both names, the second over the first.
pub proof fn lemma_two_entries(first: Entry, second: Entry)
    ensures
        assoc_map(seq![first, second]) == Map::<Seq<char>, ArgumentValueView>::empty().insert(
            first.0,
            first.1,
        ).insert(second.0, second.1),
{
    lemma_one_entry(first);
    lemma_assoc_push(seq![first], second.0, second.1);
    assert(seq![first].push(second) == seq![first, second]);
}

/// Every annotation `script(name="n")` on a code block, whatever the name
/// `n`, the language before it and the text behind it, is the action that
/// runs the block's body under the name `n`, with no exit code expected.
pub proof fn lemma_script(language: Seq<char>, n: Seq<char>, rest: Seq<char>, body: Seq<char>)
    requires
        is_language(language),
        is_string_body(n),
    ensures
        block_action(
            BlockView::Code {
                info: info_string(language, "script(name=\""@ + n + "\")"@, rest),
                body,
            },
        ) == Ok::<ActionView, DocumentErrorView>(
            ActionView::Script { name: n, code: body, expected_exit_code: None },
        ),
{
    let entry = ("name"@, ArgumentValueView::String(n));
    let call = Call { name: "script"@, entries: seq![entry] };
    let gap = Seq::<char>::empty();
    lemma_known_names();
    lemma_one_entry(entry);
    reveal_strlit("script(name=\"");
    reveal_strlit("\")");
    reveal_strlit("script");
    reveal_strlit("name");
    assert(render_call(call, gap) =~= "script(name=\""@ + n + "\")"@);
    lemma_annotation_read_back(language, call, gap, rest);
}

/// Every annotation `script(name="n", expected_exit_code=c)` on a code
/// block, whatever the name `n` and the number `c`, is the action that
/// runs the block's body under the name `n` and expects the exit code
/// `c`.
pub proof fn lemma_script_with_exit_code(
    language: Seq<char>,
    n: Seq<char>,
    c: u32,
    rest: Seq<char>,
    body: Seq<char>,
)
    requires
        is_language(language),
        is_string_body(n),
    ensures
        block_action(
            BlockView::Code {
                info: info_string(
                    language,
                    "script(name=\""@ + n + "\", expected_exit_code="@ + decimal_digits(c as nat)
                        + ")"@,
                    rest,
                ),
                body,
            },
        ) == Ok::<ActionView, DocumentErrorView>(
            ActionView::Script { name: n, code: body, expected_exit_code: Some(ExitCode(c)) },
        ),
{
    let first = ("name"@, ArgumentValueView::String(n));
    let second = ("expected_exit_code"@, ArgumentValueView::Integer(c));
    let call = Call { name: "script"@, entries: seq![first, second] };
    let gap = seq![' '];
    lemma_known_names();
    lemma_two_entries(first, second);
    reveal_strlit("script(name=\"");
    reveal_strlit("\", expected_exit_code=");
    reveal_strlit(")");
    reveal_strlit("script");
    reveal_strlit("name");
    reveal_strlit("expected_exit_code");
    assert(seq![first, second].skip(1) == seq![second]);
    assert(seq![second].skip(1) == Seq::<Entry>::empty());
    assert(render_more(seq![second], gap) =~= seq![',', ' '] + render_argument(second)) by {
        reveal_with_fuel(render_more, 2);
    }
    assert(render_argument(first) =~= "name"@ + seq!['=', '"'] + n + seq!['"']);
    assert("script(name=\""@ =~= "script"@ + seq!['('] + "name"@ + seq!['=', '"']);
    assert("\", expected_exit_code="@ =~= seq!['"', ',', ' '] + "expected_exit_code"@ + seq!['=']);
    assert(render_call(call, gap) =~= "script(name=\""@ + n + "\", expected_exit_code="@
        + decimal_digits(c as nat) + ")"@);
    lemma_annotation_read_back(language, call, gap, rest);
}

/// The annotation `script()` on a code block is refused, whatever stands
/// around it: `script` lacks its argument `name`.
pub proof fn lemma_script_without_name(language: Seq<char>, rest: Seq<char>, body: Seq<char>)
    requires
        is_language(language),
    ensures
        block_action(BlockView::Code { info: info_string(language, "script()"@, rest), body })
            == Err::<ActionView, DocumentErrorView>(
            DocumentErrorView::CodeBlock(
                ErrorView::MissingArgument { function: "script"@, argument: "name"@ },
            ),
        ),
{
    let call = Call { name: "script"@, entries: Seq::empty() };
    let gap = Seq::<char>::empty();
    lemma_known_names();
    reveal_strlit("script()");
    reveal_strlit("script");
    assert(render_call(call, gap) =~= "script()"@);
    lemma_annotation_read_back(language, call, gap, rest);
}

/// The call `verify(script_name="n", stream=t)` as it is written.
pub open spec fn verify_text(n: Seq<char>, t: Seq<char>) -> Seq<char> {
    "verify(script_name=\""@ + n + "\", stream="@ + t + ")"@
}

/// The call `verify(script_name="n", stream=t)` is read back as it is.
proof fn lemma_verify_read_back(language: Seq<char>, n: Seq<char>, t: Seq<char>, rest: Seq<char>)
    requires
        is_language(language),
        is_string_body(n),
        is_name(t),
    ensures
        annotation_call(info_string(language, verify_text(n, t), rest)) == Ok::<
            Call,
            crate::parser::grammar::Violation,
        >(
            Call {
                name: "verify"@,
                entries: seq![
                    ("script_name"@, ArgumentValueView::String(n)),
                    ("stream"@, ArgumentValueView::Token(t)),
                ],
            },
        ),
{
    let first = ("script_name"@, ArgumentValueView::String(n));
    let second = ("stream"@, ArgumentValueView::Token(t));
    let call = Call { name: "verify"@, entries: seq![first, second] };
    let gap = seq![' '];
    lemma_known_names();
    reveal_strlit("verify(script_name=\"");
    reveal_strlit("\", stream=");
    reveal_strlit(")");
    reveal_strlit("verify");
    reveal_strlit("script_name");
    reveal_strlit("stream");
    assert(seq![first, second].skip(1) == seq![second]);
    assert(seq![second].skip(1) == Seq::<Entry>::empty());
    assert(render_more(seq![second], gap) =~= seq![',', ' '] + render_argument(second)) by {
        reveal_with_fuel(render_more, 2);
    }
    assert(render_argument(first) =~= "script_name"@ + seq!['=', '"'] + n + seq!['"']);
    assert("verify(script_name=\""@ =~= "verify"@ + seq!['('] + "script_name"@ + seq!['=', '"']);
    assert("\", stream="@ =~= seq!['"', ',', ' '] + "stream"@ + seq!['=']);
    assert(render_call(call, gap) =~= verify_text(n, t));
    lemma_annotation_read_back(language, call, gap, rest);
}

/// Every annotation `verify(script_name="n", stream=t)` on a code block
/// is the action that compares the stream `t` of the script `n` with the
/// block's body, where `t` is `stdout` or `stderr`. For any other token
/// the annotation is refused, and the error names the token.
pub proof fn lemma_verify(
    language: Seq<char>,
    n: Seq<char>,
    t: Seq<char>,
    rest: Seq<char>,
    body: Seq<char>,
)
    requires
        is_language(language),
        is_string_body(n),
        is_name(t),
    ensures
        block_action(BlockView::Code { info: info_string(language, verify_text(n, t), rest), body })
            == (if t == "stdout"@ {
            Ok::<ActionView, DocumentErrorView>(
                ActionView::Verify {
                    source: SourceView { name: n, stream: Stream::StdOut },
                    expected_value: body,
                },
            )
        } else if t == "stderr"@ {
            Ok(
                ActionView::Verify {
                    source: SourceView { name: n, stream: Stream::StdErr },
                    expected_value: body,
                },
            )
        } else {
            Err(
                DocumentErrorView::CodeBlock(
                    ErrorView::InvalidArgumentValue {
                        function: "verify"@,
                        argument: "stream"@,
                        expected: "stdout or stderr"@,
                        got: t,
                    },
                ),
            )
        }),
{
    lemma_known_names();
    lemma_two_entries(
        ("script_name"@, ArgumentValueView::String(n)),
        ("stream"@, ArgumentValueView::Token(t)),
    );
    lemma_verify_read_back(language, n, t, rest);
}

/// Every annotation `verify(script_name="n", stream=t)` on a blockquote
/// is the action that compares the stream `t` of the script `n` with the
/// text below it, where `t` is `output`, `stdout` or `stderr`. For any
/// other token the annotation is refused, and the error names the token.
pub proof fn lemma_verify_on_blockquote(
    language: Seq<char>,
    n: Seq<char>,
    t: Seq<char>,
    rest: Seq<char>,
    body: Seq<char>,
)
    requires
        is_language(language),
        is_string_body(n),
        is_name(t),
    ensures
        block_action(
            BlockView::Quote { annotation: info_string(language, verify_text(n, t), rest), body },
        ) == (if t == "output"@ {
            Ok::<ActionView, DocumentErrorView>(
                ActionView::Verify {
                    source: SourceView { name: n, stream: Stream::Output },
                    expected_value: body,
                },
            )
        } else if t == "stdout"@ {
            Ok(
                ActionView::Verify {
                    source: SourceView { name: n, stream: Stream::StdOut },
                    expected_value: body,
                },
            )
        } else if t == "stderr"@ {
            Ok(
                ActionView::Verify {
                    source: SourceView { name: n, stream: Stream::StdErr },
                    expected_value: body,
                },
            )
        } else {
            Err(
                DocumentErrorView::BlockQuote(
                    blockquote_info::ErrorView::InvalidArgumentValue {
                        got: t,
                        expected: "output, stdout or stderr"@,
                    },
                ),
            )
        }),
{
    lemma_known_names();
    lemma_two_entries(
        ("script_name"@, ArgumentValueView::String(n)),
        ("stream"@, ArgumentValueView::Token(t)),
    );
    lemma_verify_read_back(language, n, t, rest);
}

/// Every annotation `file(path="p")` on a code block, whatever the path
/// `p`, is the action that writes the block's body to the file at `p`.
pub proof fn lemma_file(language: Seq<char>, p: Seq<char>, rest: Seq<char>, body: Seq<char>)
    requires
        is_language(language),
        is_string_body(p),
    ensures
        block_action(
            BlockView::Code {
                info: info_string(language, "file(path=\""@ + p + "\")"@, rest),
                body,
            },
        ) == Ok::<ActionView, DocumentErrorView>(ActionView::CreateFile { path: p, content: body }),
{
    let entry = ("path"@, ArgumentValueView::String(p));
    let call = Call { name: "file"@, entries: seq![entry] };
    let gap = Seq::<char>::empty();
    lemma_known_names();
    lemma_one_entry(entry);
    reveal_strlit("file(path=\"");
    reveal_strlit("\")");
    reveal_strlit("file");
    reveal_strlit("path");
    assert(render_call(call, gap) =~= "file(path=\""@ + p + "\")"@);
    lemma_annotation_read_back(language, call, gap, rest);
}

/// The annotation `file()` on a code block is refused, whatever stands
/// around it: `file` lacks its argument `path`.
pub proof fn lemma_file_without_path(language: Seq<char>, rest: Seq<char>, body: Seq<char>)
    requires
        is_language(language),
    ensures
        block_action(BlockView::Code { info: info_string(language, "file()"@, rest), body })
            == Err::<ActionView, DocumentErrorView>(
            DocumentErrorView::CodeBlock(
                ErrorView::MissingArgument { function: "file"@, argument: "path"@ },
            ),
        ),
{
    let call = Call { name: "file"@, entries: Seq::empty() };
    let gap = Seq::<char>::empty();
    lemma_known_names();
    reveal_strlit("file()");
    reveal_strlit("file");
    assert(render_call(call, gap) =~= "file()"@);
    lemma_annotation_read_back(language, call, gap, rest);
}

} // verus!
