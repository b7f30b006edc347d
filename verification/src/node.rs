//! The serializable syntax-tree data model: one node per grammar-tree node,
//! and the envelope that carries either a tree or a diagnostic.
use vstd::prelude::*;

use crate::engine::sub_of;

verus! {

/// One node of the produced syntax tree.
pub struct AstNode {
    /// The grammar rule or token name this node represents.
    pub kind: String,
    /// Start byte offset in the source text.
    pub start: usize,
    /// End byte offset in the source text.
    pub end: usize,
    /// Start position as a zero-based (row, column) pair.
    pub start_position: (usize, usize),
    /// End position as a zero-based (row, column) pair.
    pub end_position: (usize, usize),
    /// The exact source text of the node; present only for leaves whose
    /// byte range decodes cleanly.
    pub text: Option<String>,
    /// Whether the grammar classifies this node as named.
    pub is_named: bool,
    /// Child nodes, in source order.
    pub children: Vec<AstNode>,
}

/// The envelope returned for one parse request.
pub struct ParseResult {
    /// Whether a tree was produced.
    pub success: bool,
    /// The root node; present exactly on success.
    pub ast: Option<AstNode>,
    /// A diagnostic; present exactly on failure.
    pub error: Option<String>,
    /// The language identifier exactly as requested.
    pub language: String,
}

/// Every node of the tree carries faithful text: a leaf's `text` holds
/// exactly the substring of the source at the leaf's own byte range
/// whenever that range decodes cleanly, and is absent otherwise; an inner
/// node carries no text.
pub open spec fn text_ok(n: AstNode, src: Seq<char>) -> bool
    decreases n,
{
    &&& (match n.text {
        Some(t) => n.children@.len() == 0 && sub_of(src, n.start as int, n.end as int) == Some(
            t@,
        ),
        None => true,
    })
    &&& (n.children@.len() == 0 ==> (n.text is Some <==> sub_of(
        src,
        n.start as int,
        n.end as int,
    ) is Some))
    &&& (n.children@.len() == 0 && vstd::utf8::is_ascii_chars(src) && n.start <= n.end && n.end
        <= src.len() ==> (n.text matches Some(t) && t@ == src.subrange(
        n.start as int,
        n.end as int,
    )))
    &&& (forall|i: int|
        0 <= i < n.children@.len() ==> text_ok(#[trigger] n.children@[i], src))
}

/// Lexicographic order on (row, column) pairs.
pub open spec fn pos_le(a: (usize, usize), b: (usize, usize)) -> bool {
    a.0 < b.0 || (a.0 == b.0 && a.1 <= b.1)
}

/// The strict-tree invariant of the data model: ranges are ordered, every
/// child lies within its parent, and siblings come in source order without
/// overlap.
pub open spec fn well_formed(n: AstNode) -> bool
    decreases n,
{
    &&& n.start <= n.end
    &&& pos_le(n.start_position, n.end_position)
    &&& (forall|i: int|
        0 <= i < n.children@.len() ==> n.start <= (#[trigger] n.children@[i]).start
            && n.children@[i].end <= n.end)
    &&& (forall|i: int|
        0 <= i && i + 1 < n.children@.len() ==> (#[trigger] n.children@[i]).end <= n.children@[i
            + 1].start)
    &&& (forall|i: int|
        0 <= i < n.children@.len() ==> well_formed(#[trigger] n.children@[i]))
}

impl AstNode {
    /// Decides the strict-tree invariant for a whole tree.
    pub fn check_well_formed(&self) -> (r: bool)
        ensures
            r == well_formed(*self),
        decreases *self,
    {
        if self.start > self.end {
            return false;
        }
        let (sr, sc) = self.start_position;
        let (er, ec) = self.end_position;
        if !(sr < er || (sr == er && sc <= ec)) {
            return false;
        }
        let k = self.children.len();
        let mut i: usize = 0;
        while i < k
            invariant
                i <= k,
                k == self.children@.len(),
                self.start <= self.end,
                pos_le(self.start_position, self.end_position),
                forall|j: int|
                    0 <= j < i ==> self.start <= (#[trigger] self.children@[j]).start
                        && self.children@[j].end <= self.end,
                forall|j: int|
                    0 <= j < i && j + 1 < k ==> (#[trigger] self.children@[j]).end
                        <= self.children@[j + 1].start,
                forall|j: int| 0 <= j < i ==> well_formed(#[trigger] self.children@[j]),
            decreases k - i,
        {
            let c = &self.children[i];
            if c.start < self.start || c.end > self.end {
                return false;
            }
            if i + 1 < k {
                if c.end > self.children[i + 1].start {
                    return false;
                }
            }
            if !c.check_well_formed() {
                return false;
            }
            i += 1;
        }
        true
    }
}

} // verus!
