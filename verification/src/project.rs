//! The tree projector: walks the engine's native parse tree with an explicit
//! worklist — never native call recursion, so pathological nesting cannot
//! exhaust the call stack — and produces the serializable node tree.
use vstd::prelude::*;

use crate::engine::node_end_position;
use crate::engine::node_start_position;
use crate::engine::slice_text;
use crate::node::text_ok;
use crate::node::AstNode;

verus! {

/// One native node under conversion: its already-read attributes, how many
/// children the engine reports, how many were visited, and the converted
/// children collected so far.
struct Frame<'t> {
    node: tree_sitter::Node<'t>,
    kind: String,
    start: usize,
    end: usize,
    start_position: (usize, usize),
    end_position: (usize, usize),
    is_named: bool,
    count: u32,
    next: u32,
    acc: Vec<AstNode>,
}

/// Reads every attribute of one native node and opens a frame for it.
fn open_frame<'t>(node: tree_sitter::Node<'t>) -> (f: Frame<'t>)
    ensures
        f.acc@.len() == 0,
{
    let kind: &str = node.kind();
    Frame {
        kind: kind.to_owned(),
        start: node.start_byte(),
        end: node.end_byte(),
        start_position: node_start_position(&node),
        end_position: node_end_position(&node),
        is_named: node.is_named(),
        count: node.child_count(),
        next: 0,
        acc: Vec::new(),
        node,
    }
}

/// Builds the node of a fully visited frame. A leaf — a node whose collected
/// children are none — gets the exact source text of its byte range when
/// that range decodes cleanly, and no text otherwise; an inner node gets
/// none.
fn close_frame(f: Frame<'_>, source: &str) -> (n: AstNode)
    requires
        forall|j: int| 0 <= j < f.acc@.len() ==> text_ok(#[trigger] f.acc@[j], source@),
    ensures
        text_ok(n, source@),
{
    let text: Option<String> = if f.acc.len() == 0 {
        slice_text(source, f.start, f.end)
    } else {
        None
    };
    AstNode {
        kind: f.kind,
        start: f.start,
        end: f.end,
        start_position: f.start_position,
        end_position: f.end_position,
        text,
        is_named: f.is_named,
        children: f.acc,
    }
}

/// Converts a native tree, rooted at the given node, into the serializable
/// node tree, depth-first and in the engine's child order.
///
/// The walk spends one step per child visit and per completed node, against
/// a step budget that no tree the machine can hold comes near; a walk that
/// did exhaust it reports `None` instead of a tree.
pub fn project_tree<'t>(root: tree_sitter::Node<'t>, source: &str) -> (r: Option<AstNode>)
    ensures
        r matches Some(n) ==> text_ok(n, source@),
{
    let mut budget: usize = usize::MAX;
    let mut stack: Vec<Frame<'t>> = Vec::new();
    stack.push(open_frame(root));
    loop
        invariant
            stack@.len() >= 1,
            forall|i: int, j: int|
                0 <= i < stack@.len() && 0 <= j < stack@[i].acc@.len() ==> text_ok(
                    #[trigger] stack@[i].acc@[j],
                    source@,
                ),
        decreases budget,
    {
        if budget == 0 {
            return None;
        }
        budget -= 1;
        let mut f = stack.pop().unwrap();
        if f.next < f.count {
            let i = f.next;
            f.next = f.next + 1;
            let child = f.node.child(i);
            stack.push(f);
            match child {
                Some(c) => {
                    stack.push(open_frame(c));
                },
                None => {},
            }
        } else {
            let done = close_frame(f, source);
            if stack.len() == 0 {
                return Some(done);
            }
            let mut parent = stack.pop().unwrap();
            parent.acc.push(done);
            stack.push(parent);
        }
    }
}

} // verus!
