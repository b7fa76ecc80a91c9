//! A syntax tree held as plain values: its nodes in document pre-order.
use vstd::prelude::*;

verus! {

/// One node of a syntax tree.
pub struct SyntaxNode {
    /// The grammar's name for the node (`"if_statement"`, `"&&"`).
    pub kind: String,
    /// The field under which the node stands in its parent, if any.
    pub field: Option<String>,
    /// The index of the parent node; `None` for the root.
    pub parent: Option<usize>,
    pub start_byte: usize,
    pub end_byte: usize,
    /// The 0-based row on which the node starts.
    pub row: usize,
    /// One past the index of the last node of this node's subtree.
    pub end: usize,
}

/// A syntax tree: nodes in pre-order, so that the subtree of node `i` is the
/// index range `i .. nodes[i].end`.
pub struct SyntaxTree {
    pub nodes: Vec<SyntaxNode>,
    /// Whether the grammar engine marked any part of the tree as an error.
    pub has_error: bool,
}

impl SyntaxTree {
    /// Every subtree range lies inside the tree and every parent comes
    /// before its children.
    pub open spec fn wf(&self) -> bool {
        forall|i: int|
            0 <= i < self.nodes@.len() ==> {
                &&& i < #[trigger] self.nodes@[i].end <= self.nodes@.len()
                &&& (self.nodes@[i].parent matches Some(p) ==> p < i)
            }
    }

    pub open spec fn len(&self) -> nat {
        self.nodes@.len()
    }

    pub open spec fn kind(&self, i: int) -> Seq<char> {
        self.nodes@[i].kind@
    }

    /// Whether node `j` is a child of node `p` under field `f`.
    pub open spec fn is_field_child(&self, p: int, j: int, f: Seq<char>) -> bool {
        &&& self.nodes@[j].parent == Some(p as usize)
        &&& self.nodes@[j].field matches Some(g) && g@ == f
    }

    /// The first child of `p` under field `f`, searching indices `from .. to`.
    pub open spec fn field_child_in(&self, p: int, f: Seq<char>, from: int, to: int) -> Option<int>
        decreases to - from,
    {
        if from >= to {
            None
        } else if self.is_field_child(p, from, f) {
            Some(from)
        } else {
            self.field_child_in(p, f, from + 1, to)
        }
    }

    /// The first child of node `p` that stands under field `f`.
    pub open spec fn field_child(&self, p: int, f: Seq<char>) -> Option<int> {
        self.field_child_in(p, f, p + 1, self.nodes@[p].end as int)
    }

    /// The first child of node `p` whose kind is `k`, searching indices
    /// `from .. to`.
    pub open spec fn kind_child_in(&self, p: int, k: Seq<char>, from: int, to: int) -> Option<int>
        decreases to - from,
    {
        if from >= to {
            None
        } else if self.nodes@[from].parent == Some(p as usize) && self.kind(from) == k {
            Some(from)
        } else {
            self.kind_child_in(p, k, from + 1, to)
        }
    }

    /// The first child of node `p` whose kind is `k`.
    pub open spec fn kind_child(&self, p: int, k: Seq<char>) -> Option<int> {
        self.kind_child_in(p, k, p + 1, self.nodes@[p].end as int)
    }

    /// The 1-based line on which node `i` starts, as a `u32` (saturating).
    pub open spec fn line(&self, i: int) -> u32 {
        let r = self.nodes@[i].row;
        if r < u32::MAX { (r + 1) as u32 } else { u32::MAX }
    }

    /// The first child of node `p` under field `f`.
    pub fn child_by_field(&self, p: usize, f: &str) -> (r: Option<usize>)
        requires
            self.wf(),
            p < self.nodes@.len(),
        ensures
            r matches Some(j) ==> self.field_child(p as int, f@) == Some(j as int),
            r is None ==> self.field_child(p as int, f@) is None,
            r matches Some(j) ==> p < j < self.nodes@.len(),
    {
        let end = self.nodes[p].end;
        let mut j = p + 1;
        while j < end
            invariant
                self.wf(),
                p < self.nodes@.len(),
                end == self.nodes@[p as int].end,
                p + 1 <= j <= end,
                self.field_child(p as int, f@) == self.field_child_in(p as int, f@, j as int, end as int),
            decreases end - j,
        {
            let node = &self.nodes[j];
            let hit = match &node.field {
                Some(g) => node.parent == Some(p) && crate::text::same_text(g.as_str(), f),
                None => false,
            };
            if hit {
                return Some(j);
            }
            j = j + 1;
        }
        None
    }

    /// The first child of node `p` whose kind is `k`.
    pub fn child_of_kind(&self, p: usize, k: &str) -> (r: Option<usize>)
        requires
            self.wf(),
            p < self.nodes@.len(),
        ensures
            r matches Some(j) ==> self.kind_child(p as int, k@) == Some(j as int),
            r is None ==> self.kind_child(p as int, k@) is None,
            r matches Some(j) ==> p < j < self.nodes@.len(),
    {
        let end = self.nodes[p].end;
        let mut j = p + 1;
        while j < end
            invariant
                self.wf(),
                p < self.nodes@.len(),
                end == self.nodes@[p as int].end,
                p + 1 <= j <= end,
                self.kind_child(p as int, k@) == self.kind_child_in(p as int, k@, j as int, end as int),
            decreases end - j,
        {
            let node = &self.nodes[j];
            if node.parent == Some(p) && crate::text::same_text(node.kind.as_str(), k) {
                return Some(j);
            }
            j = j + 1;
        }
        None
    }

    /// Whether node `j` is a child of node `p` under field `f`.
    pub fn is_child_under(&self, p: usize, j: usize, f: &str) -> (r: bool)
        requires
            j < self.nodes@.len(),
        ensures
            r == self.is_field_child(p as int, j as int, f@),
    {
        let node = &self.nodes[j];
        match &node.field {
            Some(g) => node.parent == Some(p) && crate::text::same_text(g.as_str(), f),
            None => false,
        }
    }

    /// Whether node `i` is of kind `k`.
    pub fn is_kind(&self, i: usize, k: &str) -> (r: bool)
        requires
            i < self.nodes@.len(),
        ensures
            r == (self.kind(i as int) == k@),
    {
        crate::text::same_text(self.nodes[i].kind.as_str(), k)
    }

    /// The 1-based line on which node `i` starts.
    pub fn line_of(&self, i: usize) -> (r: u32)
        requires
            i < self.nodes@.len(),
        ensures
            r == self.line(i as int),
    {
        let row = self.nodes[i].row;
        if row < u32::MAX as usize {
            (row + 1) as u32
        } else {
            u32::MAX
        }
    }
}

} // verus!
