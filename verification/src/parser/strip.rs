//! Taking the annotations out of a document, so that it reads as plain
//! markdown.

use crate::parser::function_string::language;
use crate::parser::grammar::language_of;
use crate::parser::markdown::{
    document_nodes, info_views, nodes, render, rendered, Node, NodeKind, NodeKindView, NodeView,
};
use crate::text::views;
use vstd::prelude::*;

verus! {

/// The info string that each node is left with: a code block keeps the
/// language of its info string, and other nodes have none.
pub open spec fn stripped_infos(nodes: Seq<NodeView>) -> Seq<Option<Seq<char>>> {
    nodes.map_values(
        |node: NodeView|
            match node.kind {
                NodeKindView::CodeBlock { info, .. } => Some(language_of(info)),
                _ => None,
            },
    )
}

/// The info string that each of `nodes` is left with.
pub fn languages(nodes: &[Node]) -> (infos: Vec<Option<String>>)
    ensures
        info_views(infos@) == stripped_infos(views(nodes@)),
{
    let mut infos: Vec<Option<String>> = Vec::new();
    let mut i: usize = 0;
    let ghost wanted = stripped_infos(views(nodes@));
    assert(info_views(infos@) == wanted.take(0));
    while i < nodes.len()
        invariant
            0 <= i <= nodes.len(),
            wanted == stripped_infos(views(nodes@)),
            info_views(infos@) == wanted.take(i as int),
        decreases nodes.len() - i,
    {
        let ghost before = info_views(infos@);
        let info = match &nodes[i].kind {
            NodeKind::CodeBlock { info, .. } => Some(language(info.as_str())),
            _ => None,
        };
        infos.push(info);
        assert(info_views(infos@) == before.push(wanted[i as int]));
        assert(wanted.take(i + 1) == wanted.take(i as int).push(wanted[i as int]));
        i += 1;
    }
    assert(wanted.take(i as int) == wanted);
    infos
}

/// The document `markdown` with the info string of each code block cut
/// down to its language: what stood before the first comma.
pub fn strip(markdown: &str) -> (text: String)
    ensures
        text@ == rendered(markdown@, stripped_infos(document_nodes(markdown@))),
{
    let nodes = nodes(markdown);
    let infos = languages(nodes.as_slice());
    render(markdown, &infos)
}

} // verus!
