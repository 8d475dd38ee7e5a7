//! The navigation engine: line-containment queries and a cursor that steps
//! through an ordered sequence of nodes.

use crate::ast::CodeNode;
use vstd::prelude::*;

verus! {

broadcast use vstd::seq_lib::group_seq_properties;

/// The nodes of `nodes` whose line span contains `line`, in their original order.
pub open spec fn nodes_at_line(nodes: Seq<CodeNode>, line: int) -> Seq<CodeNode> {
    nodes.filter(covering(line))
}

/// The predicate "the node's line span contains `line`".
pub open spec fn covering(line: int) -> spec_fn(CodeNode) -> bool {
    |n: CodeNode| n.covers(line)
}

/// The abstract state of a navigator: its nodes and its cursor.
pub struct NavigatorView {
    pub nodes: Seq<CodeNode>,
    pub cursor: nat,
}

impl NavigatorView {
    /// The state of a navigator just built over `nodes`.
    pub open spec fn fresh(nodes: Seq<CodeNode>) -> NavigatorView {
        NavigatorView { nodes, cursor: 0 }
    }

    /// The cursor is 0 on an empty sequence and a valid index otherwise.
    pub open spec fn wf(self) -> bool {
        if self.nodes.len() == 0 {
            self.cursor == 0
        } else {
            self.cursor < self.nodes.len()
        }
    }

    /// The node under the cursor, absent on an empty sequence.
    pub open spec fn current_node(self) -> Option<CodeNode> {
        if self.cursor < self.nodes.len() {
            Some(self.nodes[self.cursor as int])
        } else {
            None
        }
    }

    /// Whether a next node exists.
    pub open spec fn can_advance(self) -> bool {
        self.cursor + 1 < self.nodes.len()
    }

    /// Whether a previous node exists.
    pub open spec fn can_retreat(self) -> bool {
        self.cursor > 0
    }

    /// The state after moving forward: one step on, or unchanged at the end.
    pub open spec fn advanced(self) -> NavigatorView {
        if self.can_advance() {
            NavigatorView { nodes: self.nodes, cursor: self.cursor + 1 }
        } else {
            self
        }
    }

    /// The state after moving back: one step back, or unchanged at the start.
    pub open spec fn retreated(self) -> NavigatorView {
        if self.can_retreat() {
            NavigatorView { nodes: self.nodes, cursor: (self.cursor - 1) as nat }
        } else {
            self
        }
    }

    /// What moving forward yields: the node now under the cursor, or absent.
    pub open spec fn advance_result(self) -> Option<CodeNode> {
        if self.can_advance() {
            self.advanced().current_node()
        } else {
            None
        }
    }

    /// What moving back yields: the node now under the cursor, or absent.
    pub open spec fn retreat_result(self) -> Option<CodeNode> {
        if self.can_retreat() {
            self.retreated().current_node()
        } else {
            None
        }
    }
}

/// A node of a sequence is among the nodes found at `line` exactly when its
/// line span contains `line`.
pub proof fn lemma_found_iff_covers(nodes: Seq<CodeNode>, line: int, n: CodeNode)
    requires
        nodes.contains(n),
    ensures
        nodes_at_line(nodes, line).contains(n) <==> n.covers(line),
{
    let i = choose|i: int| 0 <= i < nodes.len() && nodes[i] == n;
    if n.covers(line) {
        nodes.lemma_filter_contains(covering(line), i);
    }
    if nodes_at_line(nodes, line).contains(n) {
        let j = choose|j: int| 0 <= j < nodes_at_line(nodes, line).len() && nodes_at_line(nodes, line)[j] == n;
        nodes.lemma_filter_pred(covering(line), j);
    }
}

/// Right after construction over a non-empty sequence, the current node is
/// the first one.
pub proof fn lemma_fresh_current_is_first(nodes: Seq<CodeNode>)
    requires
        nodes.len() > 0,
    ensures
        NavigatorView::fresh(nodes).wf(),
        NavigatorView::fresh(nodes).current_node() == Some(nodes[0]),
{
}

/// Moving forward and then back returns to the original node; where no next
/// node exists, moving forward yields nothing and leaves the cursor in place.
pub proof fn lemma_advance_then_retreat(v: NavigatorView)
    requires
        v.wf(),
    ensures
        v.can_advance() ==> v.advance_result() is Some && v.advanced().retreated() == v
            && v.advanced().retreat_result() == v.current_node(),
        !v.can_advance() ==> v.advance_result() is None && v.advanced() == v,
{
}

/// Moving back and then forward returns to the original node; where no
/// previous node exists, moving back yields nothing and leaves the cursor in
/// place.
pub proof fn lemma_retreat_then_advance(v: NavigatorView)
    requires
        v.wf(),
    ensures
        v.can_retreat() ==> v.retreat_result() is Some && v.retreated().advanced() == v
            && v.retreated().advance_result() == v.current_node(),
        !v.can_retreat() ==> v.retreat_result() is None && v.retreated() == v,
{
}

/// On an empty or single-node sequence, moving forward yields nothing and
/// leaves the state as it was, so every further attempt yields nothing too.
pub proof fn lemma_advance_short_sequence(v: NavigatorView)
    requires
        v.wf(),
        v.nodes.len() <= 1,
    ensures
        v.advance_result() is None,
        v.advanced() == v,
{
}

/// Ordered nodes of one parsed file together with a cursor over them.
pub struct Navigator {
    nodes: Vec<CodeNode>,
    current_index: usize,
}

impl View for Navigator {
    type V = NavigatorView;

    closed spec fn view(&self) -> NavigatorView {
        NavigatorView { nodes: self.nodes@, cursor: self.current_index as nat }
    }
}

/// Turns a borrowed optional node into the node it refers to.
pub open spec fn deref_opt(o: Option<&CodeNode>) -> Option<CodeNode> {
    match o {
        Some(n) => Some(*n),
        None => None,
    }
}

impl Navigator {
    #[verifier::type_invariant]
    spec fn inv(&self) -> bool {
        self@.wf()
    }

    /// Creates a navigator over `nodes`, with the cursor on the first node.
    pub fn new(nodes: Vec<CodeNode>) -> (r: Self)
        ensures
            r@ == NavigatorView::fresh(nodes@),
            r@.wf(),
    {
        Navigator { nodes, current_index: 0 }
    }

    /// Every node whose line span contains `line`, in construction order.
    ///
    /// Nested constructs all appear; the result is not ranked by span width.
    pub fn find_nodes_at_line(&self, line: usize) -> (r: Vec<&CodeNode>)
        ensures
            r@.len() == nodes_at_line(self@.nodes, line as int).len(),
            forall|i: int| 0 <= i < r@.len() ==> *r@[i] == #[trigger] nodes_at_line(self@.nodes, line as int)[i],
    {
        let mut found: Vec<&CodeNode> = Vec::new();
        let mut i: usize = 0;
        while i < self.nodes.len()
            invariant
                i <= self.nodes@.len(),
                found@.len() == self.nodes@.subrange(0, i as int).filter(covering(line as int)).len(),
                forall|k: int| 0 <= k < found@.len() ==> *found@[k] == #[trigger] self.nodes@.subrange(0, i as int).filter(covering(line as int))[k],
            decreases self.nodes@.len() - i,
        {
            let ghost before = self.nodes@.subrange(0, i as int);
            proof {
                assert(self.nodes@.subrange(0, i + 1) == before.push(self.nodes@[i as int]));
                before.lemma_filter_push(self.nodes@[i as int], covering(line as int));
            }
            let node = &self.nodes[i];
            if node.contains_line(line) {
                found.push(node);
            }
            i = i + 1;
        }
        proof {
            assert(self.nodes@.subrange(0, self.nodes@.len() as int) == self.nodes@);
        }
        found
    }

    /// Moves the cursor to the next node and returns it; absent, with the
    /// cursor unchanged, at the last node or on an empty sequence.
    pub fn next(&mut self) -> (r: Option<&CodeNode>)
        ensures
            final(self)@ == old(self)@.advanced(),
            deref_opt(r) == old(self)@.advance_result(),
            final(self)@.wf(),
    {
        proof { use_type_invariant(&*self); }
        if self.nodes.len() > 0 && self.current_index < self.nodes.len() - 1 {
            self.current_index = self.current_index + 1;
            Some(&self.nodes[self.current_index])
        } else {
            None
        }
    }

    /// Moves the cursor to the previous node and returns it; absent, with the
    /// cursor unchanged, at the first node or on an empty sequence.
    pub fn previous(&mut self) -> (r: Option<&CodeNode>)
        ensures
            final(self)@ == old(self)@.retreated(),
            deref_opt(r) == old(self)@.retreat_result(),
            final(self)@.wf(),
    {
        proof { use_type_invariant(&*self); }
        if self.current_index > 0 {
            self.current_index = self.current_index - 1;
            Some(&self.nodes[self.current_index])
        } else {
            None
        }
    }

    /// The node under the cursor, absent on an empty sequence.
    pub fn current(&self) -> (r: Option<&CodeNode>)
        ensures
            deref_opt(r) == self@.current_node(),
            self@.wf(),
    {
        proof { use_type_invariant(self); }
        if self.current_index < self.nodes.len() {
            Some(&self.nodes[self.current_index])
        } else {
            None
        }
    }

    /// The position of the cursor.
    pub fn current_index(&self) -> (r: usize)
        ensures
            r as nat == self@.cursor,
    {
        self.current_index
    }

    /// All nodes, in construction order.
    pub fn nodes(&self) -> (r: &[CodeNode])
        ensures
            r@ == self@.nodes,
    {
        self.nodes.as_slice()
    }
}

} // verus!
