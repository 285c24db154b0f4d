//! The input and output tree models and the collection pass.
//!
//! An input node carries either a single text child or a list of child
//! nodes, never both: the shape is enforced by the type itself.  After the
//! box-layout engine has solved a tree, the collection pass pairs every
//! input node with its solved geometry and emits an output node carrying
//! absolute position, size, box values and, for text leaves, the wrapped
//! lines the measurement pass produced.
use vstd::prelude::*;

use crate::style::InputTreeNodeStyle;
use crate::style::Sides;

verus! {

/// The children of an input tree node: exactly one of a text payload or a
/// list of nodes.
#[derive(Debug)]
pub enum InputChildren {
    Text(String),
    Nodes(Vec<InputTreeNode>),
}

/// The children of an output tree node: exactly one of a text payload or a
/// list of nodes, mirroring the input shape.
#[derive(Debug)]
pub enum OutputChildren {
    Text(String),
    Nodes(Vec<OutputTreeNode>),
}

/// A node of the input tree: a caller-assigned id, passed through
/// unchanged, the leaf-or-container children, and an optional style.
#[derive(Debug)]
pub struct InputTreeNode {
    pub id: usize,
    pub children: InputChildren,
    pub style: Option<InputTreeNodeStyle>,
}

/// The geometry the engine reports for one solved node, in cells: outer
/// size, absolute position, intrinsic content size, and the resolved box
/// values in the canonical top, right, bottom, left order.
#[derive(Debug, Clone, Copy, PartialEq, Eq, Structural)]
pub struct NodeGeometry {
    pub width: usize,
    pub height: usize,
    pub x: usize,
    pub y: usize,
    pub content_width: usize,
    pub content_height: usize,
    pub border: Sides,
    pub padding: Sides,
    pub margin: Sides,
}

/// A solved node as handed back from the engine: its geometry, the wrapped
/// lines stored for it if it was measured as a text leaf, and its solved
/// children in input order.
#[derive(Debug)]
pub struct GeomNode {
    pub geometry: NodeGeometry,
    pub lines: Option<Vec<String>>,
    pub children: Vec<GeomNode>,
}

/// A node of the output tree: the input node's id, the solved geometry,
/// the wrapped text lines for text leaves, and children mirroring the
/// input shape.
#[derive(Debug)]
pub struct OutputTreeNode {
    pub id: usize,
    pub width: usize,
    pub height: usize,
    pub x: usize,
    pub y: usize,
    pub content_text_lines: Option<Vec<String>>,
    pub content_width: usize,
    pub content_height: usize,
    pub border: Sides,
    pub padding: Sides,
    pub margin: Sides,
    pub children: OutputChildren,
}

/// Whether a solved tree has the same shape as the input tree: wrapped
/// lines stored exactly at text leaves, and one solved child per input
/// child throughout.
pub open spec fn shape_matches(input: InputTreeNode, solved: GeomNode) -> bool
    decreases input,
{
    match input.children {
        InputChildren::Text(_) => solved.lines is Some && solved.children@.len() == 0,
        InputChildren::Nodes(ns) => solved.lines is None && solved.children@.len() == ns@.len()
            && forall|i: int|
            0 <= i < ns@.len() ==> shape_matches(#[trigger] ns@[i], solved.children@[i]),
    }
}

/// Whether two line lists carry the same text.
pub open spec fn same_lines(a: Seq<String>, b: Seq<String>) -> bool {
    a.len() == b.len() && forall|i: int| 0 <= i < a.len() ==> a[i]@ == #[trigger] b[i]@
}

/// Whether `out` is the collection of `solved` over `input`: the input's
/// id, the solved geometry and stored lines, and children collected node
/// by node in order, mirroring the input shape.
pub open spec fn collected(input: InputTreeNode, solved: GeomNode, out: OutputTreeNode) -> bool
    decreases input,
{
    &&& out.id == input.id
    &&& out.width == solved.geometry.width
    &&& out.height == solved.geometry.height
    &&& out.x == solved.geometry.x
    &&& out.y == solved.geometry.y
    &&& out.content_width == solved.geometry.content_width
    &&& out.content_height == solved.geometry.content_height
    &&& out.border == solved.geometry.border
    &&& out.padding == solved.geometry.padding
    &&& out.margin == solved.geometry.margin
    &&& (match solved.lines {
        None => out.content_text_lines is None,
        Some(ls) => out.content_text_lines matches Some(ols) && same_lines(ols@, ls@),
    })
    &&& (match input.children {
        InputChildren::Text(t) => out.children matches OutputChildren::Text(ot) && ot@ == t@,
        InputChildren::Nodes(ns) => out.children matches OutputChildren::Nodes(os)
            && os@.len() == ns@.len() && forall|i: int|
            0 <= i < ns@.len() ==> collected(ns@[i], solved.children@[i], #[trigger] os@[i]),
    })
}

/// A copy of a line list that carries the same text.
fn clone_lines(lines: &Vec<String>) -> (r: Vec<String>)
    ensures
        same_lines(r@, lines@),
{
    let mut out: Vec<String> = Vec::new();
    let mut i: usize = 0;
    while i < lines.len()
        invariant
            i <= lines@.len(),
            out@.len() == i,
            forall|j: int| 0 <= j < i ==> out@[j]@ == #[trigger] lines@[j]@,
        decreases lines@.len() - i,
    {
        out.push(lines[i].clone());
        i = i + 1;
    }
    out
}

/// The output tree for an input tree and its solved geometry.
///
/// Succeeds exactly when the solved tree has the input's shape, with
/// wrapped lines stored exactly at text leaves; the output then copies the
/// input ids and shape and the solved geometry and lines, node for node.
pub fn collect_nodes(input: &InputTreeNode, solved: &GeomNode) -> (r: Option<OutputTreeNode>)
    ensures
        r is Some <==> shape_matches(*input, *solved),
        r matches Some(out) ==> collected(*input, *solved, out),
    decreases *input,
{
    let g = &solved.geometry;
    let lines = match &solved.lines {
        Some(ls) => Some(clone_lines(ls)),
        None => None,
    };
    match &input.children {
        InputChildren::Text(t) => {
            if solved.lines.is_some() && solved.children.len() == 0 {
                Some(
                    OutputTreeNode {
                        id: input.id,
                        width: g.width,
                        height: g.height,
                        x: g.x,
                        y: g.y,
                        content_text_lines: lines,
                        content_width: g.content_width,
                        content_height: g.content_height,
                        border: g.border,
                        padding: g.padding,
                        margin: g.margin,
                        children: OutputChildren::Text(t.clone()),
                    },
                )
            } else {
                None
            }
        },
        InputChildren::Nodes(ns) => {
            if solved.lines.is_none() && solved.children.len() == ns.len() {
                let mut os: Vec<OutputTreeNode> = Vec::new();
                let mut i: usize = 0;
                let mut failed = false;
                while i < ns.len()
                    invariant
                        i <= ns@.len(),
                        input.children is Nodes,
                        ns == input.children->Nodes_0,
                        solved.children@.len() == ns@.len(),
                        !failed ==> os@.len() == i,
                        !failed ==> forall|j: int|
                            0 <= j < i ==> shape_matches(#[trigger] ns@[j], solved.children@[j]),
                        !failed ==> forall|j: int|
                            0 <= j < i ==> collected(
                                ns@[j],
                                solved.children@[j],
                                #[trigger] os@[j],
                            ),
                        failed ==> exists|j: int|
                            0 <= j < ns@.len() && !shape_matches(
                                #[trigger] ns@[j],
                                solved.children@[j],
                            ),
                    decreases ns@.len() - i,
                {
                    proof {
                        assert(decreases_to!(*input => input.children));
                        assert(decreases_to!(input.children => input.children->Nodes_0));
                        assert(decreases_to!(ns@ => ns@[i as int]));
                    }
                    match collect_nodes(&ns[i], &solved.children[i]) {
                        Some(out) => {
                            if !failed {
                                os.push(out);
                            }
                        },
                        None => {
                            failed = true;
                        },
                    }
                    i = i + 1;
                }
                if failed {
                    None
                } else {
                    Some(
                        OutputTreeNode {
                            id: input.id,
                            width: g.width,
                            height: g.height,
                            x: g.x,
                            y: g.y,
                            content_text_lines: lines,
                            content_width: g.content_width,
                            content_height: g.content_height,
                            border: g.border,
                            padding: g.padding,
                            margin: g.margin,
                            children: OutputChildren::Nodes(os),
                        },
                    )
                }
            } else {
                None
            }
        },
    }
}

/// Whether the output tree mirrors the input tree's leaf-or-container
/// shape throughout, id for id: a text leaf stays a text leaf with the
/// same text, a container stays a container with one child for one child.
pub open spec fn mirrors_shape(input: InputTreeNode, out: OutputTreeNode) -> bool
    decreases input,
{
    &&& out.id == input.id
    &&& (match input.children {
        InputChildren::Text(t) => out.children matches OutputChildren::Text(ot) && ot@ == t@,
        InputChildren::Nodes(ns) => out.children matches OutputChildren::Nodes(os)
            && os@.len() == ns@.len() && forall|i: int|
            0 <= i < ns@.len() ==> mirrors_shape(ns@[i], #[trigger] os@[i]),
    })
}

/// Whether wrapped lines appear exactly at the text leaves of an output
/// tree, recursively.
pub open spec fn lines_only_at_text_leaves(out: OutputTreeNode) -> bool
    decreases out,
{
    match out.children {
        OutputChildren::Text(_) => out.content_text_lines is Some,
        OutputChildren::Nodes(os) => out.content_text_lines is None && forall|i: int|
            0 <= i < os.len() ==> lines_only_at_text_leaves(#[trigger] os[i]),
    }
}

/// A collected output tree mirrors its input tree: same ids, same
/// leaf-or-container shape at every node.
pub proof fn lemma_collected_mirrors(input: InputTreeNode, solved: GeomNode, out: OutputTreeNode)
    requires
        collected(input, solved, out),
    ensures
        mirrors_shape(input, out),
    decreases input,
{
    match input.children {
        InputChildren::Text(_) => {},
        InputChildren::Nodes(ns) => {
            let os = out.children->Nodes_0;
            assert forall|i: int| 0 <= i < ns@.len() implies mirrors_shape(
                ns@[i],
                #[trigger] os@[i],
            ) by {
                lemma_collected_mirrors(ns@[i], solved.children@[i], os@[i]);
            }
        },
    }
}

/// A collected output tree of a shape-matching solve carries wrapped lines
/// exactly at its text leaves, recursively.
pub proof fn lemma_collected_lines_at_leaves(
    input: InputTreeNode,
    solved: GeomNode,
    out: OutputTreeNode,
)
    requires
        shape_matches(input, solved),
        collected(input, solved, out),
    ensures
        lines_only_at_text_leaves(out),
    decreases input,
{
    match input.children {
        InputChildren::Text(_) => {},
        InputChildren::Nodes(ns) => {
            let os = out.children->Nodes_0;
            assert forall|i: int| 0 <= i < os@.len() implies lines_only_at_text_leaves(
                #[trigger] os@[i],
            ) by {
                lemma_collected_lines_at_leaves(ns@[i], solved.children@[i], os@[i]);
            }
        },
    }
}

} // verus!
