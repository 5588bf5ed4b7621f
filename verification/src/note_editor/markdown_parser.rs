//! The blocks of a Markdown document.
//!
//! Parsing itself is done by `basalt_core`. What it hands back is held to
//! the text before the editor relies on it: only blocks whose ranges can be
//! cut out of the text, and that follow one another, are kept.

use crate::text::{is_boundary, on_boundary};
use basalt_core::markdown::MarkdownNode;
use std::ops::Range;
use vstd::prelude::*;

verus! {

/// The kind of a block; a heading carries its level, 1 to 6.
#[derive(Clone, Copy, Debug, PartialEq, Eq)]
pub enum NodeKind {
    Heading(u8),
    Paragraph,
    BlockQuote,
    CodeBlock,
    Item,
}

/// A block of a document: its kind and the bytes of the source it covers.
#[derive(Debug, PartialEq, Eq)]
pub struct Node {
    pub kind: NodeKind,
    pub source_range: Range<usize>,
}

impl Clone for Node {
    fn clone(&self) -> (r: Self)
        ensures
            r == *self,
    {
        Node {
            kind: self.kind,
            source_range: Range { start: self.source_range.start, end: self.source_range.end },
        }
    }
}

impl Node {
    pub fn new(kind: NodeKind, source_range: Range<usize>) -> (r: Self)
        ensures
            r.kind == kind,
            r.source_range == source_range,
    {
        Node { kind, source_range }
    }
}

/// A copy of `nodes`.
pub fn copy_nodes(nodes: &[Node]) -> (r: Vec<Node>)
    ensures
        r@ == nodes@,
{
    let mut r: Vec<Node> = Vec::new();
    let mut i: usize = 0;
    while i < nodes.len()
        invariant
            i <= nodes.len(),
            r@ == nodes@.take(i as int),
        decreases nodes.len() - i,
    {
        r.push(nodes[i].clone());
        assert(nodes@.take(i + 1) =~= nodes@.take(i as int).push(nodes@[i as int]));
        i += 1;
    }
    assert(nodes@.take(i as int) =~= nodes@);
    r
}

/// The top-level blocks that `basalt_core::markdown::from_str` finds in `text`.
pub uninterp spec fn markdown_nodes(text: Seq<char>) -> Seq<Node>;

/// `basalt_core::markdown::from_str`: the blocks of `text`, each with its
/// kind and source range. The parser is total and its result depends on the
/// text alone.
#[verifier::external_body]
fn parse(text: &str) -> (nodes: Vec<Node>)
    ensures
        nodes@ == markdown_nodes(text@),
{
    basalt_core::markdown::from_str(text).into_iter().map(|node| Node {
        kind: match node.markdown_node {
            MarkdownNode::Heading { level, .. } => NodeKind::Heading(level as u8),
            MarkdownNode::Paragraph { .. } => NodeKind::Paragraph,
            MarkdownNode::BlockQuote { .. } => NodeKind::BlockQuote,
            MarkdownNode::CodeBlock { .. } => NodeKind::CodeBlock,
            MarkdownNode::Item { .. } => NodeKind::Item,
        },
        source_range: node.source_range,
    }).collect()
}

/// Whether `range` can be cut out of `text`: it lies inside the text, both
/// its ends lie between characters, and so does the byte before its start,
/// where the text before the block is cut off.
pub open spec fn fits(text: Seq<char>, range: Range<usize>) -> bool {
    &&& range.start <= range.end
    &&& on_boundary(text, range.start as int)
    &&& on_boundary(text, range.end as int)
    &&& range.start > 0 ==> on_boundary(text, range.start - 1)
}

/// Whether every block fits `text` and each ends before the next begins.
pub open spec fn well_placed(text: Seq<char>, nodes: Seq<Node>) -> bool {
    &&& forall|i: int| 0 <= i < nodes.len() ==> fits(text, #[trigger] nodes[i].source_range)
    &&& forall|i: int, j: int|
        0 <= i < j < nodes.len() ==> (#[trigger] nodes[i]).source_range.end <= (
        #[trigger] nodes[j]).source_range.start
}

/// The blocks of `raw` that are kept when no block may begin before
/// `floor`: a block is kept if it fits `text` and begins at or after the end
/// of the block kept before it.
pub open spec fn kept_from(text: Seq<char>, raw: Seq<Node>, floor: int) -> Seq<Node>
    decreases raw.len(),
{
    if raw.len() == 0 {
        seq![]
    } else if fits(text, raw[0].source_range) && floor <= raw[0].source_range.start {
        seq![raw[0]] + kept_from(text, raw.skip(1), raw[0].source_range.end as int)
    } else {
        kept_from(text, raw.skip(1), floor)
    }
}

/// The blocks of `raw`, as many of them as a vector can hold.
pub open spec fn within_reach(raw: Seq<Node>) -> Seq<Node> {
    if raw.len() > usize::MAX {
        raw.take(usize::MAX as int)
    } else {
        raw
    }
}

/// The blocks of `raw` that the editor keeps for `text`.
pub open spec fn kept(text: Seq<char>, raw: Seq<Node>) -> Seq<Node> {
    kept_from(text, within_reach(raw), 0)
}

/// The blocks of the document `text`.
pub open spec fn blocks(text: Seq<char>) -> Seq<Node> {
    kept(text, markdown_nodes(text))
}

/// What is kept is well placed, begins at or after the floor, and is no
/// more than there was.
pub proof fn lemma_kept_well_placed(text: Seq<char>, raw: Seq<Node>, floor: int)
    ensures
        kept_from(text, raw, floor).len() <= raw.len(),
        well_placed(text, kept_from(text, raw, floor)),
        forall|i: int|
            0 <= i < kept_from(text, raw, floor).len() ==> floor <= (#[trigger] kept_from(
                text,
                raw,
                floor,
            )[i]).source_range.start,
    decreases raw.len(),
{
    if raw.len() > 0 {
        if fits(text, raw[0].source_range) && floor <= raw[0].source_range.start {
            lemma_kept_well_placed(text, raw.skip(1), raw[0].source_range.end as int);
        } else {
            lemma_kept_well_placed(text, raw.skip(1), floor);
        }
    }
}

/// Whether `range` can be cut out of `text`.
pub fn range_fits(text: &str, range: &Range<usize>) -> (r: bool)
    ensures
        r == fits(text@, *range),
{
    range.start <= range.end && is_boundary(text, range.start) && is_boundary(text, range.end) && (
    range.start == 0 || is_boundary(text, range.start - 1))
}

/// Keeps the blocks of `raw` that fit `text` and follow one another.
pub fn accept(text: &str, raw: Vec<Node>) -> (nodes: Vec<Node>)
    ensures
        nodes@ == kept(text@, raw@),
        well_placed(text@, nodes@),
        nodes@.len() <= usize::MAX,
{
    let mut nodes: Vec<Node> = Vec::new();
    let mut floor: usize = 0;
    let mut i: usize = 0;
    let count = raw.len();
    proof {
        assert(raw@.len() == count);
        assert(within_reach(raw@) == raw@);
        assert(raw@.skip(0) =~= raw@);
        assert(nodes@ + kept(text@, raw@) =~= kept(text@, raw@));
    }
    while i < raw.len()
        invariant
            i <= raw.len(),
            nodes@ + kept_from(text@, raw@.skip(i as int), floor as int) == kept(text@, raw@),
        decreases raw.len() - i,
    {
        let ghost before = nodes@;
        let ghost rest = raw@.skip(i as int);
        let ghost low = floor as int;
        assert(rest.skip(1) =~= raw@.skip(i + 1));
        if range_fits(text, &raw[i].source_range) && floor <= raw[i].source_range.start {
            floor = raw[i].source_range.end;
            nodes.push(raw[i].clone());
            assert(nodes@ + kept_from(text@, raw@.skip(i + 1), floor as int) =~= before
                + kept_from(text@, rest, low));
        }
        i += 1;
    }
    proof {
        assert(raw@.skip(i as int) =~= Seq::<Node>::empty());
        assert(nodes@ =~= kept(text@, raw@));
        lemma_kept_well_placed(text@, raw@, 0);
    }
    nodes
}

/// Parses `text` into its blocks.
pub fn from_str(text: &str) -> (nodes: Vec<Node>)
    ensures
        nodes@ == blocks(text@),
        well_placed(text@, nodes@),
        nodes@.len() <= usize::MAX,
{
    accept(text, parse(text))
}

} // verus!
