//! From annotated markdown to actions.

pub mod annotation_laws;
pub mod blockquote_info;
pub mod code_block_info;
pub mod error;
pub mod function_string;
pub mod grammar;
pub mod markdown;
pub mod quote;
pub mod rendering;
pub mod spelling;
pub mod strip;

use crate::text::{result_view, views};
use crate::types::{Action, ActionView};
use blockquote_info::{BlockQuoteTypes, BlockQuoteTypesView};
use code_block_info::{CodeBlockType, CodeBlockTypeView};
use function_string::{annotated, calls_function};
use grammar::is_annotated;
use markdown::{document_nodes, Node, NodeKind, NodeKindView, NodeView};
use quote::{below_end, quote_annotation, quote_body, quote_text, scan_below, split_quote, text_of};
use vstd::prelude::*;
use vstd::string::*;

verus! {

/// An annotated block of a document.
#[derive(Debug, PartialEq, Eq)]
pub enum Block {
    /// A code block, with its info string and the text between its fences.
    Code { info: String, body: String },
    /// A blockquote, with its annotation and the text below it.
    Quote { annotation: String, body: String },
}

/// What a `Block` stands for in specifications.
pub enum BlockView {
    Code { info: Seq<char>, body: Seq<char> },
    Quote { annotation: Seq<char>, body: Seq<char> },
}

impl View for Block {
    type V = BlockView;

    open spec fn view(&self) -> BlockView {
        match self {
            Block::Code { info, body } => BlockView::Code { info: info@, body: body@ },
            Block::Quote { annotation, body } => BlockView::Quote {
                annotation: annotation@,
                body: body@,
            },
        }
    }
}

/// Why a document could not be turned into actions.
#[derive(Debug, PartialEq)]
pub enum DocumentError {
    /// The annotation of a code block was not accepted.
    CodeBlock(error::Error),
    /// The annotation of a blockquote was not accepted.
    BlockQuote(blockquote_info::Error),
}

/// What a `DocumentError` stands for in specifications.
pub enum DocumentErrorView {
    CodeBlock(error::ErrorView),
    BlockQuote(blockquote_info::ErrorView),
}

impl View for DocumentError {
    type V = DocumentErrorView;

    open spec fn view(&self) -> DocumentErrorView {
        match self {
            DocumentError::CodeBlock(error) => DocumentErrorView::CodeBlock(error@),
            DocumentError::BlockQuote(error) => DocumentErrorView::BlockQuote(error@),
        }
    }
}

/// The sentence that describes an error.
pub open spec fn message(error: DocumentErrorView) -> Seq<char> {
    match error {
        DocumentErrorView::CodeBlock(error) => error::message(error),
        DocumentErrorView::BlockQuote(error) => blockquote_info::message(error),
    }
}

impl DocumentError {
    /// The sentence that describes this error.
    pub fn to_string(&self) -> (text: String)
        ensures
            text@ == message(self@),
    {
        match self {
            DocumentError::CodeBlock(error) => error.to_string(),
            DocumentError::BlockQuote(error) => error.to_string(),
        }
    }
}

/// The action that a code block with the text `body` stands for.
pub open spec fn code_block_action(block: CodeBlockTypeView, body: Seq<char>) -> ActionView {
    match block {
        CodeBlockTypeView::Script(name, expected_exit_code) => ActionView::Script {
            name,
            code: body,
            expected_exit_code,
        },
        CodeBlockTypeView::Verify(source) => ActionView::Verify { source, expected_value: body },
        CodeBlockTypeView::CreateFile(path) => ActionView::CreateFile { path, content: body },
    }
}

/// The action that a blockquote with the text `body` stands for.
pub open spec fn blockquote_action(block: BlockQuoteTypesView, body: Seq<char>) -> ActionView {
    match block {
        BlockQuoteTypesView::Script(name) => ActionView::Script {
            name,
            code: body,
            expected_exit_code: None,
        },
        BlockQuoteTypesView::Verify(source) => ActionView::Verify { source, expected_value: body },
    }
}

/// The action that a block stands for, or why its annotation was not
/// accepted.
pub open spec fn block_action(block: BlockView) -> Result<ActionView, DocumentErrorView> {
    match block {
        BlockView::Code { info, body } => match code_block_info::annotation_type(info) {
            Ok(block) => Ok(code_block_action(block, body)),
            Err(error) => Err(DocumentErrorView::CodeBlock(error)),
        },
        BlockView::Quote { annotation, body } => match blockquote_info::annotation_type(
            annotation,
        ) {
            Ok(block) => Ok(blockquote_action(block, body)),
            Err(error) => Err(DocumentErrorView::BlockQuote(error)),
        },
    }
}

/// The actions that blocks stand for, in order, or the error of the first
/// block whose annotation was not accepted.
pub open spec fn block_actions(blocks: Seq<BlockView>) -> Result<
    Seq<ActionView>,
    DocumentErrorView,
>
    decreases blocks.len(),
{
    if blocks.len() == 0 {
        Ok(Seq::empty())
    } else {
        match block_actions(blocks.drop_last()) {
            Ok(actions) => match block_action(blocks.last()) {
                Ok(action) => Ok(actions.push(action)),
                Err(error) => Err(error),
            },
            Err(error) => Err(error),
        }
    }
}

/// The annotated block that the node at `i` stands for, if it stands for
/// one. A code block does when its info string carries an annotation. A
/// blockquote does when the first line of its text calls a function; that
/// line is its annotation, and the lines after it are its body.
pub open spec fn block_at(nodes: Seq<NodeView>, i: int) -> Option<BlockView> {
    match nodes[i].kind {
        NodeKindView::CodeBlock { info, literal } => if is_annotated(info) {
            Some(BlockView::Code { info, body: literal })
        } else {
            None
        },
        NodeKindView::BlockQuote => {
            let text = quote_text(nodes, i + 1, below_end(nodes, i + 1, nodes[i].depth));
            if grammar::calls_function(quote_annotation(text)) {
                Some(
                    BlockView::Quote { annotation: quote_annotation(text), body: quote_body(text) },
                )
            } else {
                None
            }
        },
        _ => None,
    }
}

/// The annotated blocks among the first `k` nodes of a document, in
/// order.
pub open spec fn blocks_before(nodes: Seq<NodeView>, k: int) -> Seq<BlockView>
    decreases k,
{
    if k <= 0 {
        Seq::empty()
    } else {
        match block_at(nodes, k - 1) {
            Some(block) => blocks_before(nodes, k - 1).push(block),
            None => blocks_before(nodes, k - 1),
        }
    }
}

/// The annotated blocks among the nodes of a document, in order.
pub open spec fn annotated_blocks(nodes: Seq<NodeView>) -> Seq<BlockView> {
    blocks_before(nodes, nodes.len() as int)
}

/// The actions of the document `markdown`.
pub open spec fn document_actions(markdown: Seq<char>) -> Result<
    Seq<ActionView>,
    DocumentErrorView,
> {
    block_actions(annotated_blocks(document_nodes(markdown)))
}

/// What a list of actions or an error stands for in specifications.
pub open spec fn actions_view(result: Result<Vec<Action>, DocumentError>) -> Result<
    Seq<ActionView>,
    DocumentErrorView,
> {
    match result {
        Ok(actions) => Ok(views(actions@)),
        Err(error) => Err(error@),
    }
}

/// The action that a code block with the text `body` stands for.
pub fn code_block_to_action(block: CodeBlockType, body: &str) -> (action: Action)
    ensures
        action@ == code_block_action(block@, body@),
{
    match block {
        CodeBlockType::Script(name, expected_exit_code) => Action::Script {
            name,
            code: String::from_str(body),
            expected_exit_code,
        },
        CodeBlockType::Verify(source) => Action::Verify {
            source,
            expected_value: String::from_str(body),
        },
        CodeBlockType::CreateFile(path) => Action::CreateFile {
            path,
            content: String::from_str(body),
        },
    }
}

/// The action that a blockquote with the text `body` stands for.
pub fn blockquote_to_action(block: BlockQuoteTypes, body: &str) -> (action: Action)
    ensures
        action@ == blockquote_action(block@, body@),
{
    match block {
        BlockQuoteTypes::Script(name) => Action::Script {
            name,
            code: String::from_str(body),
            expected_exit_code: None,
        },
        BlockQuoteTypes::Verify(source) => Action::Verify {
            source,
            expected_value: String::from_str(body),
        },
    }
}

/// Turns one annotated block into its action.
pub fn to_action(block: &Block) -> (result: Result<Action, DocumentError>)
    ensures
        result_view(result) == block_action(block@),
{
    match block {
        Block::Code { info, body } => match code_block_info::parse(info.as_str()) {
            Ok(block) => Ok(code_block_to_action(block, body.as_str())),
            Err(error) => Err(DocumentError::CodeBlock(error)),
        },
        Block::Quote { annotation, body } => match blockquote_info::parse(annotation.as_str()) {
            Ok(block) => Ok(blockquote_to_action(block, body.as_str())),
            Err(error) => Err(DocumentError::BlockQuote(error)),
        },
    }
}

/// Turns annotated blocks into their actions, in order. The first
/// annotation that is not accepted ends the work with its error.
pub fn to_actions(blocks: &[Block]) -> (result: Result<Vec<Action>, DocumentError>)
    ensures
        actions_view(result) == block_actions(views(blocks@)),
{
    let ghost all = views(blocks@);
    let mut actions: Vec<Action> = Vec::new();
    let mut i: usize = 0;
    assert(all.take(0) == Seq::<BlockView>::empty());
    assert(views(actions@) == Seq::<ActionView>::empty());
    while i < blocks.len()
        invariant
            0 <= i <= blocks.len(),
            all == views(blocks@),
            block_actions(all.take(i as int)) == Ok::<Seq<ActionView>, DocumentErrorView>(
                views(actions@),
            ),
        decreases blocks.len() - i,
    {
        let ghost before = views(actions@);
        assert(all.take(i + 1).drop_last() == all.take(i as int));
        assert(all.take(i + 1).last() == blocks[i as int]@);
        match to_action(&blocks[i]) {
            Ok(action) => {
                actions.push(action);
                assert(views(actions@) == before.push(action@));
            },
            Err(error) => {
                proof {
                    lemma_first_error_stays(all, i + 1);
                }
                return Err(error);
            },
        }
        i += 1;
    }
    assert(all.take(i as int) == all);
    Ok(actions)
}

/// Once a block's annotation is not accepted, the blocks after it change
/// nothing.
pub proof fn lemma_first_error_stays(blocks: Seq<BlockView>, k: int)
    requires
        0 <= k <= blocks.len(),
        block_actions(blocks.take(k)) is Err,
    ensures
        block_actions(blocks) == block_actions(blocks.take(k)),
    decreases blocks.len(),
{
    if k < blocks.len() {
        assert(blocks.drop_last().take(k) == blocks.take(k));
        lemma_first_error_stays(blocks.drop_last(), k);
    } else {
        assert(blocks.take(k) == blocks);
    }
}

/// Whether `k` is the first block whose annotation is not accepted.
pub open spec fn is_first_refused(blocks: Seq<BlockView>, k: int) -> bool {
    &&& 0 <= k < blocks.len()
    &&& block_action(blocks[k]) is Err
    &&& forall|i: int| 0 <= i < k ==> block_action(#[trigger] blocks[i]) is Ok
}

/// The actions of blocks keep the order of the blocks: where every
/// annotation is accepted, there is one action for each block, at the
/// block's position. Otherwise the error is that of the first block whose
/// annotation is not accepted.
pub proof fn lemma_actions_in_order(blocks: Seq<BlockView>)
    ensures
        match block_actions(blocks) {
            Ok(actions) => actions.len() == blocks.len() && forall|i: int|
                0 <= i < blocks.len() ==> block_action(#[trigger] blocks[i]) == Ok::<
                    ActionView,
                    DocumentErrorView,
                >(actions[i]),
            Err(error) => exists|k: int| #[trigger]
                is_first_refused(blocks, k) && block_action(blocks[k]) == Err::<
                    ActionView,
                    DocumentErrorView,
                >(error),
        },
    decreases blocks.len(),
{
    if blocks.len() > 0 {
        let before = blocks.drop_last();
        lemma_actions_in_order(before);
        match block_actions(before) {
            Ok(actions) => {
                assert forall|i: int| 0 <= i < before.len() implies block_action(
                    #[trigger] blocks[i],
                ) is Ok by {
                    assert(blocks[i] == before[i]);
                }
                match block_action(blocks.last()) {
                    Ok(action) => {
                        assert forall|i: int| 0 <= i < blocks.len() implies block_action(
                            #[trigger] blocks[i],
                        ) == Ok::<ActionView, DocumentErrorView>(actions.push(action)[i]) by {
                            if i < before.len() {
                                assert(blocks[i] == before[i]);
                            }
                        }
                    },
                    Err(_) => {
                        assert(is_first_refused(blocks, blocks.len() - 1));
                    },
                }
            },
            Err(error) => {
                let k = choose|k: int| #[trigger]
                    is_first_refused(before, k) && block_action(before[k]) == Err::<
                        ActionView,
                        DocumentErrorView,
                    >(error);
                assert(blocks[k] == before[k]);
                assert forall|i: int| 0 <= i < k implies block_action(#[trigger] blocks[i])
                    is Ok by {
                    assert(blocks[i] == before[i]);
                    assert(block_action(before[i]) is Ok);
                }
                assert(is_first_refused(blocks, k));
            },
        }
    }
}

/// What a block, if there is one, stands for in specifications.
pub open spec fn block_view(block: Option<Block>) -> Option<BlockView> {
    match block {
        Some(block) => Some(block@),
        None => None,
    }
}

/// The annotated block that the node at `i` stands for, if it stands for
/// one.
pub(crate) fn block_of(nodes: &[Node], i: usize) -> (block: Option<Block>)
    requires
        i < nodes.len(),
    ensures
        block_view(block) == block_at(views(nodes@), i as int),
{
    assert(views(nodes@)[i as int] == nodes[i as int]@);
    match &nodes[i].kind {
        NodeKind::CodeBlock { info, literal } => {
            if annotated(info.as_str()) {
                Some(Block::Code { info: info.clone(), body: literal.clone() })
            } else {
                None
            }
        },
        NodeKind::BlockQuote => {
            let end = scan_below(nodes, i + 1, nodes[i].depth);
            let text = text_of(nodes, i + 1, end);
            let (annotation, body) = split_quote(text.as_str());
            if calls_function(annotation.as_str()) {
                Some(Block::Quote { annotation, body })
            } else {
                None
            }
        },
        _ => None,
    }
}

/// The annotated blocks among `nodes`, in order.
pub fn blocks_of(nodes: &[Node]) -> (blocks: Vec<Block>)
    ensures
        views(blocks@) == annotated_blocks(views(nodes@)),
{
    let ghost all = views(nodes@);
    let mut blocks: Vec<Block> = Vec::new();
    let mut i: usize = 0;
    assert(views(blocks@) == Seq::<BlockView>::empty());
    while i < nodes.len()
        invariant
            0 <= i <= nodes.len(),
            all == views(nodes@),
            views(blocks@) == blocks_before(all, i as int),
        decreases nodes.len() - i,
    {
        let ghost before = views(blocks@);
        match block_of(nodes, i) {
            Some(block) => {
                blocks.push(block);
                assert(views(blocks@) == before.push(block@));
            },
            None => {},
        }
        i += 1;
    }
    blocks
}

/// Reads the document `markdown` and turns its annotated code blocks and
/// blockquotes into actions, in the order of the document. A code block
/// whose info string has no comma, and a blockquote whose first line calls
/// no function, carry no annotation and are passed over.
pub fn parse(markdown: &str) -> (result: Result<Vec<Action>, DocumentError>)
    ensures
        actions_view(result) == document_actions(markdown@),
{
    let nodes = markdown::nodes(markdown);
    let blocks = blocks_of(nodes.as_slice());
    to_actions(blocks.as_slice())
}

} // verus!
