//! The text of a blockquote, put together from the nodes below it: its
//! first line is the annotation, and the lines after it are the body.

use crate::parser::markdown::{Node, NodeKind, NodeKindView, NodeView};
use crate::text::{substring, to_chars, views};
use vstd::prelude::*;
use vstd::string::*;

verus! {

/// Where the nodes end that stand below a node of the depth `depth`, when
/// they begin at `i`: at the first node from `i` on that stands no deeper
/// than `depth`, or at the end of the nodes.
pub open spec fn below_end(nodes: Seq<NodeView>, i: int, depth: usize) -> int
    decreases nodes.len() - i,
{
    if 0 <= i < nodes.len() && nodes[i].depth > depth {
        below_end(nodes, i + 1, depth)
    } else {
        i
    }
}

/// What a node adds to the text `before` of a blockquote: a run of text
/// adds itself, the end of a line adds a line feed, and so does a
/// paragraph that is not the first thing in the text. Other nodes add
/// nothing.
pub open spec fn piece(kind: NodeKindView, before: Seq<char>) -> Seq<char> {
    match kind {
        NodeKindView::Text(text) => text,
        NodeKindView::Break => seq!['\n'],
        NodeKindView::Paragraph => if before.len() > 0 {
            seq!['\n']
        } else {
            Seq::empty()
        },
        _ => Seq::empty(),
    }
}

/// The text that the nodes from `from` up to `to` add up to.
pub open spec fn quote_text(nodes: Seq<NodeView>, from: int, to: int) -> Seq<char>
    decreases to - from,
{
    if to <= from {
        Seq::empty()
    } else {
        let before = quote_text(nodes, from, to - 1);
        before + piece(nodes[to - 1].kind, before)
    }
}

/// Where the line ends that begins at `i`: at the first line feed from
/// `i` on, or at the end of the text.
pub open spec fn line_end(s: Seq<char>, i: int) -> int
    decreases s.len() - i,
{
    if 0 <= i < s.len() && s[i] != '\n' {
        line_end(s, i + 1)
    } else {
        i
    }
}

/// The annotation of a blockquote with the text `text`: its first line.
pub open spec fn quote_annotation(text: Seq<char>) -> Seq<char> {
    text.subrange(0, line_end(text, 0))
}

/// The body of a blockquote with the text `text`: what follows its first
/// line, closed by a line feed; nothing where the text is one line.
pub open spec fn quote_body(text: Seq<char>) -> Seq<char> {
    if line_end(text, 0) < text.len() {
        text.skip(line_end(text, 0) + 1) + seq!['\n']
    } else {
        Seq::empty()
    }
}

/// Where the nodes end that stand below a node of the depth `depth`, when
/// they begin at `start`.
pub(crate) fn scan_below(nodes: &[Node], start: usize, depth: usize) -> (end: usize)
    requires
        start <= nodes.len(),
    ensures
        end == below_end(views(nodes@), start as int, depth),
        start <= end <= nodes.len(),
{
    let ghost all = views(nodes@);
    let mut i = start;
    while i < nodes.len() && nodes[i].depth > depth
        invariant
            start <= i <= nodes.len(),
            all == views(nodes@),
            below_end(all, start as int, depth) == below_end(all, i as int, depth),
        decreases nodes.len() - i,
    {
        assert(all[i as int] == nodes[i as int]@);
        i += 1;
    }
    assert(i < nodes.len() ==> all[i as int] == nodes[i as int]@);
    i
}

/// The text that the nodes from `from` up to `to` add up to.
pub(crate) fn text_of(nodes: &[Node], from: usize, to: usize) -> (text: String)
    requires
        from <= to <= nodes.len(),
    ensures
        text@ == quote_text(views(nodes@), from as int, to as int),
{
    let ghost all = views(nodes@);
    let mut text = String::new();
    let mut i = from;
    proof {
        reveal_strlit("\n");
        assert("\n"@ == seq!['\n']);
    }
    while i < to
        invariant
            from <= i <= to <= nodes.len(),
            all == views(nodes@),
            "\n"@ == seq!['\n'],
            text@ == quote_text(all, from as int, i as int),
        decreases to - i,
    {
        let ghost before = text@;
        assert(all[i as int] == nodes[i as int]@);
        match &nodes[i].kind {
            NodeKind::Text(part) => {
                text.append(part.as_str());
            },
            NodeKind::Break => {
                text.append("\n");
            },
            NodeKind::Paragraph => {
                if text.as_str().unicode_len() > 0 {
                    text.append("\n");
                }
            },
            _ => {},
        }
        assert(text@ == before + piece(all[i as int].kind, before));
        i += 1;
    }
    text
}

/// The annotation and the body of a blockquote with the text `text`.
pub fn split_quote(text: &str) -> (parts: (String, String))
    ensures
        parts.0@ == quote_annotation(text@),
        parts.1@ == quote_body(text@),
{
    let chars = to_chars(text);
    let mut end: usize = 0;
    while end < chars.len() && chars[end] != '\n'
        invariant
            0 <= end <= chars.len(),
            line_end(chars@, 0) == line_end(chars@, end as int),
        decreases chars.len() - end,
    {
        end += 1;
    }
    let annotation = substring(text, 0, end);
    let body = if end < chars.len() {
        proof {
            reveal_strlit("\n");
            assert("\n"@ == seq!['\n']);
            assert(text@.subrange(end + 1, text@.len() as int) == text@.skip(end + 1));
        }
        substring(text, end + 1, chars.len()).concat("\n")
    } else {
        String::new()
    };
    (annotation, body)
}

} // verus!
