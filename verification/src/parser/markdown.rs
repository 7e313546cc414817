//! The markdown of a document, read and written with `comrak`.

use crate::text::views;
use comrak::nodes::NodeValue;
use comrak::{format_commonmark, parse_document, Arena, ComrakOptions};
use vstd::prelude::*;

verus! {

/// What a node of a document is, as far as annotations go.
#[derive(Debug, PartialEq, Eq)]
pub enum NodeKind {
    /// A code block, with the text after its opening fence and the text
    /// between its fences.
    CodeBlock { info: String, literal: String },
    /// A blockquote. What it quotes are the nodes below it.
    BlockQuote,
    /// A paragraph. Its text are the nodes below it.
    Paragraph,
    /// A run of text.
    Text(String),
    /// The end of a line within a paragraph.
    Break,
    /// Any other node.
    Other,
}

/// What a `NodeKind` stands for in specifications.
pub enum NodeKindView {
    CodeBlock { info: Seq<char>, literal: Seq<char> },
    BlockQuote,
    Paragraph,
    Text(Seq<char>),
    Break,
    Other,
}

impl View for NodeKind {
    type V = NodeKindView;

    open spec fn view(&self) -> NodeKindView {
        match self {
            NodeKind::CodeBlock { info, literal } => NodeKindView::CodeBlock {
                info: info@,
                literal: literal@,
            },
            NodeKind::BlockQuote => NodeKindView::BlockQuote,
            NodeKind::Paragraph => NodeKindView::Paragraph,
            NodeKind::Text(text) => NodeKindView::Text(text@),
            NodeKind::Break => NodeKindView::Break,
            NodeKind::Other => NodeKindView::Other,
        }
    }
}

/// A node of a document: what it is, and how deep it stands in the tree of
/// the document. The nodes of a document come each before the nodes
/// below it, so the nodes below a node are those that follow it for as
/// long as they stand deeper than it.
#[derive(Debug, PartialEq, Eq)]
pub struct Node {
    /// The number of nodes from this one up to the root, both counted.
    pub depth: usize,
    pub kind: NodeKind,
}

/// What a `Node` stands for in specifications.
pub struct NodeView {
    pub depth: usize,
    pub kind: NodeKindView,
}

impl View for Node {
    type V = NodeView;

    open spec fn view(&self) -> NodeView {
        NodeView { depth: self.depth, kind: self.kind@ }
    }
}

/// The views of info strings, where there are any.
pub open spec fn info_views(infos: Seq<Option<String>>) -> Seq<Option<Seq<char>>> {
    infos.map_values(
        |info: Option<String>|
            match info {
                Some(info) => Some(info@),
                None => None,
            },
    )
}

/// The nodes of the document that `comrak` reads from `markdown` with its
/// default options, each node before its descendants and with its depth
/// in the tree.
pub uninterp spec fn document_nodes(markdown: Seq<char>) -> Seq<NodeView>;

/// The CommonMark text that `comrak` writes, with its default options, for
/// the document that it reads from `markdown`, after each code block among
/// its nodes has been given the info string at its position in `infos`,
/// where there is one.
pub uninterp spec fn rendered(markdown: Seq<char>, infos: Seq<Option<Seq<char>>>) -> Seq<char>;

/// The nodes of the document `markdown`, each before its descendants.
///
/// Calls `comrak::parse_document` with the default options and walks the
/// result with `descendants`; the depth of a node is the length of its
/// `ancestors`. The contract gives the outcome a name and claims nothing
/// else of it.
#[verifier::external_body]
pub(crate) fn nodes(markdown: &str) -> (nodes: Vec<Node>)
    ensures
        views(nodes@) == document_nodes(markdown@),
{
    let arena = Arena::new();
    let text = |bytes: &Vec<u8>| String::from_utf8_lossy(bytes).into_owned();
    let root = parse_document(&arena, markdown, &ComrakOptions::default());
    root.descendants().map(|node| Node { depth: node.ancestors().count(), kind: match &node.data.borrow().value {
        NodeValue::CodeBlock(block) => NodeKind::CodeBlock { info: text(&block.info), literal: text(&block.literal) },
        NodeValue::BlockQuote => NodeKind::BlockQuote,
        NodeValue::Paragraph => NodeKind::Paragraph,
        NodeValue::Text(bytes) => NodeKind::Text(text(bytes)),
        NodeValue::SoftBreak => NodeKind::Break,
        NodeValue::LineBreak => NodeKind::Break,
        _ => NodeKind::Other,
    } }).collect()
}

/// The document `markdown` written out again, with the info strings of its
/// code blocks replaced by those in `infos`.
///
/// Calls `comrak::parse_document`, sets `info` on the code blocks among
/// the `descendants`, and calls `comrak::format_commonmark`, all with the
/// default options. The contract gives the outcome a name and claims
/// nothing else of it.
#[verifier::external_body]
pub(crate) fn render(markdown: &str, infos: &Vec<Option<String>>) -> (text: String)
    ensures
        text@ == rendered(markdown@, info_views(infos@)),
{
    let arena = Arena::new();
    let root = parse_document(&arena, markdown, &ComrakOptions::default());
    for (node, info) in root.descendants().zip(infos.iter()) {
        if let (NodeValue::CodeBlock(block), Some(info)) = (&mut node.data.borrow_mut().value, info) {
            block.info = info.clone().into_bytes();
        }
    }
    let mut text = vec![];
    let _ = format_commonmark(root, &ComrakOptions::default(), &mut text);
    String::from_utf8_lossy(&text).into_owned()
}

} // verus!
