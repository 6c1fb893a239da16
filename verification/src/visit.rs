//! The visitor protocol: three-way traversal decisions, their native
//! encoding, and the visit order that the decisions drive.
//!
//! The native library walks an AST by recursive descent and calls a visitor
//! once per node, in document order. The visitor answers with one of three
//! decisions: `Break` aborts the whole traversal at once, `Continue` moves to
//! the next sibling without descending, and `Recurse` visits the children of
//! the current node before the remaining siblings. [`plan`] states that
//! protocol as a function from a tree and a decision sequence to the visited
//! node sequence, and [`Tree::visit_children`] is an engine, verified against
//! [`plan`], that drives any [`Visitor`] over an explicit synthetic tree by
//! exactly those rules.

use vstd::prelude::*;

use crate::kind::Kind;

verus! {

/// Native encoding of the decision that aborts the traversal.
pub const NATIVE_VISIT_BREAK: i32 = 0;
/// Native encoding of the decision that moves to the next sibling.
pub const NATIVE_VISIT_CONTINUE: i32 = 1;
/// Native encoding of the decision that descends into the current node.
pub const NATIVE_VISIT_RECURSE: i32 = 2;

/// A visitor's answer for one visited node.
#[derive(Debug, Clone, Copy, PartialEq, Eq, Structural)]
pub enum ChildVisitResult {
    /// Abort the entire traversal immediately, at any depth.
    Break,
    /// Visit the next sibling without descending into the current node.
    Continue,
    /// Visit the children of the current node before the remaining siblings.
    Recurse,
}

impl ChildVisitResult {
    /// The traversal-control code that the native library understands.
    pub open spec fn spec_native(self) -> int {
        match self {
            ChildVisitResult::Break => NATIVE_VISIT_BREAK as int,
            ChildVisitResult::Continue => NATIVE_VISIT_CONTINUE as int,
            ChildVisitResult::Recurse => NATIVE_VISIT_RECURSE as int,
        }
    }

    /// Encodes the decision as the native library's traversal-control code.
    pub fn to_native(self) -> (r: i32)
        ensures
            r as int == self.spec_native(),
    {
        match self {
            ChildVisitResult::Break => NATIVE_VISIT_BREAK,
            ChildVisitResult::Continue => NATIVE_VISIT_CONTINUE,
            ChildVisitResult::Recurse => NATIVE_VISIT_RECURSE,
        }
    }
}

/// A typed traversal callback together with its arbitrary mutable state: the
/// implementing type carries whatever state the caller chooses, and `visit`
/// is invoked once per visited node with the node and its parent.
pub trait Visitor {
    /// Called once per visited node; the answer controls the descent.
    fn visit(&mut self, node: usize, parent: usize) -> ChildVisitResult;
}

/// One node of a synthetic AST: its kind and the arena indices of its
/// children, in document order.
pub struct Node {
    /// The syntactic kind of the node.
    pub kind: Kind,
    /// Arena indices of the children, in document order.
    pub children: Vec<usize>,
}

/// An arena of nodes forms a tree when every child index points past its
/// parent and into the arena: child edges only go forward, so the structure
/// is acyclic and every walk terminates.
pub open spec fn tree_wf(nodes: Seq<Node>) -> bool {
    forall|i: int, j: int|
        0 <= i < nodes.len() && 0 <= j < nodes[i].children@.len() ==> i
            < #[trigger] nodes[i].children@[j] as int && nodes[i].children@[j] < nodes.len()
}

/// A synthetic AST held as an arena. Index 0 is the root; every node's
/// children lie further along the arena, which keeps the tree acyclic.
pub struct Tree {
    nodes: Vec<Node>,
}

impl View for Tree {
    type V = Seq<Node>;

    closed spec fn view(&self) -> Seq<Node> {
        self.nodes@
    }
}

/// The sequence of visited nodes in a trace.
pub open spec fn trace_nodes(trace: Seq<(usize, ChildVisitResult)>) -> Seq<int> {
    trace.map(|i: int, entry: (usize, ChildVisitResult)| entry.0 as int)
}

/// The sequence of decisions returned in a trace.
pub open spec fn trace_decisions(trace: Seq<(usize, ChildVisitResult)>) -> Seq<ChildVisitResult> {
    trace.map(|i: int, entry: (usize, ChildVisitResult)| entry.1)
}

/// How one run of the traversal protocol ended.
pub enum PlanEnd {
    /// The sibling list was exhausted without a `Break`.
    Done,
    /// A `Break` decision aborted the traversal.
    Broke,
    /// The decision sequence ran out before the traversal ended.
    Starved,
}

/// The visit order that the traversal protocol produces.
///
/// `plan(t, p, j, d)` walks the children of node `p`, starting at child
/// position `j`, consuming one decision from the front of `d` per visited
/// node: `Break` stops everything, `Continue` moves to the next sibling, and
/// `Recurse` walks the children of the visited node before the remaining
/// siblings. The result is the visited node sequence and how the walk ended.
pub open spec fn plan(t: Seq<Node>, p: int, j: int, d: Seq<ChildVisitResult>) -> (Seq<
    int,
>, PlanEnd)
    decreases t.len() - p, t[p].children@.len() - j,
    when tree_wf(t) && 0 <= p < t.len() && 0 <= j
{
    let cs = t[p].children@;
    if j >= cs.len() {
        (Seq::<int>::empty(), PlanEnd::Done)
    } else if d.len() == 0 {
        (Seq::<int>::empty(), PlanEnd::Starved)
    } else {
        let n = cs[j] as int;
        match d[0] {
            ChildVisitResult::Break => (seq![n], PlanEnd::Broke),
            ChildVisitResult::Continue => {
                let rest = plan(t, p, j + 1, d.skip(1));
                (seq![n] + rest.0, rest.1)
            },
            ChildVisitResult::Recurse => {
                let sub = plan(t, n, 0, d.skip(1));
                if sub.1 is Done {
                    let rest = plan(t, p, j + 1, d.skip(1 + sub.0.len() as int));
                    (seq![n] + sub.0 + rest.0, rest.1)
                } else {
                    (seq![n] + sub.0, sub.1)
                }
            },
        }
    }
}

impl Tree {
    /// The tree is well formed: every child edge points forward and stays
    /// inside the arena.
    pub open spec fn wf(&self) -> bool {
        tree_wf(self@)
    }

    /// Builds a tree holding only a root node of the given kind, at index 0.
    pub fn new(root_kind: Kind) -> (t: Tree)
        ensures
            t.wf(),
            t@.len() == 1,
            t@[0].kind == root_kind,
            t@[0].children@.len() == 0,
    {
        let mut nodes: Vec<Node> = Vec::new();
        nodes.push(Node { kind: root_kind, children: Vec::new() });
        Tree { nodes }
    }

    /// Appends a new childless node of the given kind as the last child of
    /// `parent`, and returns its index.
    pub fn add_child(&mut self, parent: usize, kind: Kind) -> (child: usize)
        requires
            old(self).wf(),
            parent < old(self)@.len(),
            old(self)@.len() < usize::MAX,
        ensures
            final(self).wf(),
            child == old(self)@.len(),
            final(self)@.len() == old(self)@.len() + 1,
            final(self)@[child as int].kind == kind,
            final(self)@[child as int].children@.len() == 0,
            final(self)@[parent as int].children@ == old(self)@[parent as int].children@.push(
                child,
            ),
            final(self)@[parent as int].kind == old(self)@[parent as int].kind,
            forall|i: int|
                0 <= i < old(self)@.len() && i != parent ==> final(self)@[i] == old(self)@[i],
    {
        let child = self.nodes.len();
        self.nodes.push(Node { kind, children: Vec::new() });
        let parent_node = &mut self.nodes[parent];
        parent_node.children.push(child);
        assert forall|i: int, j: int|
            0 <= i < self@.len() && 0 <= j < self@[i].children@.len() implies i
            < #[trigger] self@[i].children@[j] as int && self@[i].children@[j]
            < self@.len() by {
            if i == parent && j == self@[i].children@.len() - 1 {
            } else {
                assert(self@[i].children@[j] == old(self)@[i].children@[j]);
            }
        }
        child
    }

    /// The number of nodes in the tree.
    pub fn len(&self) -> (n: usize)
        ensures
            n == self@.len(),
    {
        self.nodes.len()
    }

    /// The kind of the node at `index`.
    pub fn kind_of(&self, index: usize) -> (k: Kind)
        requires
            index < self@.len(),
        ensures
            k == self@[index as int].kind,
    {
        self.nodes[index].kind
    }

    /// The number of children of the node at `index`.
    pub fn child_count(&self, index: usize) -> (n: usize)
        requires
            index < self@.len(),
        ensures
            n == self@[index as int].children@.len(),
    {
        self.nodes[index].children.len()
    }

    /// The arena index of child `position` of the node at `index`.
    pub fn child_at(&self, index: usize, position: usize) -> (c: usize)
        requires
            index < self@.len(),
            position < self@[index as int].children@.len(),
        ensures
            c == self@[index as int].children@[position as int],
    {
        self.nodes[index].children[position]
    }
}

/// A walk never visits more nodes than it has decisions: one decision is
/// consumed per visit.
pub proof fn lemma_plan_consumed_le(t: Seq<Node>, p: int, j: int, d: Seq<ChildVisitResult>)
    requires
        tree_wf(t),
        0 <= p < t.len(),
        0 <= j,
    ensures
        plan(t, p, j, d).0.len() <= d.len(),
    decreases t.len() - p, t[p].children@.len() - j,
{
    let cs = t[p].children@;
    if j >= cs.len() || d.len() == 0 {
    } else {
        let n = cs[j] as int;
        match d[0] {
            ChildVisitResult::Break => {},
            ChildVisitResult::Continue => {
                lemma_plan_consumed_le(t, p, j + 1, d.skip(1));
            },
            ChildVisitResult::Recurse => {
                lemma_plan_consumed_le(t, n, 0, d.skip(1));
                let sub = plan(t, n, 0, d.skip(1));
                if sub.1 is Done {
                    lemma_plan_consumed_le(t, p, j + 1, d.skip(1 + sub.0.len() as int));
                }
            },
        }
    }
}

/// Decisions beyond the ones a walk consumes do not change it: when a walk
/// out of `d1` did not starve, appending further decisions leaves the visited
/// sequence and the ending untouched.
pub proof fn lemma_plan_extend(
    t: Seq<Node>,
    p: int,
    j: int,
    d1: Seq<ChildVisitResult>,
    d2: Seq<ChildVisitResult>,
)
    requires
        tree_wf(t),
        0 <= p < t.len(),
        0 <= j,
        !(plan(t, p, j, d1).1 is Starved),
    ensures
        plan(t, p, j, d1 + d2) == plan(t, p, j, d1),
    decreases t.len() - p, t[p].children@.len() - j,
{
    let cs = t[p].children@;
    if j >= cs.len() {
    } else if d1.len() == 0 {
        // plan(t, p, j, d1) would be Starved here, excluded by the premise.
    } else {
        let n = cs[j] as int;
        let d = d1 + d2;
        assert(d.len() > 0 && d[0] == d1[0]);
        assert(d.skip(1) =~= d1.skip(1) + d2);
        match d1[0] {
            ChildVisitResult::Break => {},
            ChildVisitResult::Continue => {
                lemma_plan_extend(t, p, j + 1, d1.skip(1), d2);
            },
            ChildVisitResult::Recurse => {
                let sub = plan(t, n, 0, d1.skip(1));
                lemma_plan_extend(t, n, 0, d1.skip(1), d2);
                if sub.1 is Done {
                    lemma_plan_consumed_le(t, n, 0, d1.skip(1));
                    let k = 1 + sub.0.len() as int;
                    assert(d.skip(k) =~= d1.skip(k) + d2);
                    lemma_plan_extend(t, p, j + 1, d1.skip(k), d2);
                }
            },
        }
    }
}

/// The depth-first pre-order sequence of the strict descendants of node `p`,
/// beginning with the child at position `j`: each child is followed by its
/// own descendants before the next sibling.
pub open spec fn preorder(t: Seq<Node>, p: int, j: int) -> Seq<int>
    decreases t.len() - p, t[p].children@.len() - j,
    when tree_wf(t) && 0 <= p < t.len() && 0 <= j
{
    let cs = t[p].children@;
    if j >= cs.len() {
        Seq::<int>::empty()
    } else {
        let n = cs[j] as int;
        seq![n] + preorder(t, n, 0) + preorder(t, p, j + 1)
    }
}

/// Law: a walk whose decisions are all `Continue` visits exactly the direct
/// children of the start node from position `j` on, in order — it never
/// descends to a grandchild — and runs to the natural end of the sibling
/// list.
pub proof fn lemma_continue_only_visits_children(
    t: Seq<Node>,
    p: int,
    j: int,
    d: Seq<ChildVisitResult>,
)
    requires
        tree_wf(t),
        0 <= p < t.len(),
        0 <= j,
        forall|i: int| 0 <= i < d.len() ==> d[i] is Continue,
        !(plan(t, p, j, d).1 is Starved),
    ensures
        plan(t, p, j, d).0 == t[p].children@.map(|i: int, c: usize| c as int).skip(
            if j <= t[p].children@.len() {
                j
            } else {
                t[p].children@.len() as int
            },
        ),
        plan(t, p, j, d).1 is Done,
    decreases t.len() - p, t[p].children@.len() - j,
{
    let cs = t[p].children@;
    let mapped = cs.map(|i: int, c: usize| c as int);
    if j >= cs.len() {
        assert(mapped.skip(mapped.len() as int) =~= Seq::<int>::empty());
    } else {
        assert(d.len() > 0);
        assert(d[0] is Continue);
        let rest = plan(t, p, j + 1, d.skip(1));
        assert(forall|i: int| 0 <= i < d.skip(1).len() ==> #[trigger] d.skip(1)[i] is Continue);
        lemma_continue_only_visits_children(t, p, j + 1, d.skip(1));
        assert(plan(t, p, j, d).0 =~= mapped.skip(j));
    }
}

/// Law: a walk whose decisions are all `Recurse` visits every strict
/// descendant of the start node from child position `j` on, in depth-first
/// pre-order, and runs to the natural end.
pub proof fn lemma_recurse_only_preorder(t: Seq<Node>, p: int, j: int, d: Seq<ChildVisitResult>)
    requires
        tree_wf(t),
        0 <= p < t.len(),
        0 <= j,
        forall|i: int| 0 <= i < d.len() ==> d[i] is Recurse,
        !(plan(t, p, j, d).1 is Starved),
    ensures
        plan(t, p, j, d).0 == preorder(t, p, j),
        plan(t, p, j, d).1 is Done,
    decreases t.len() - p, t[p].children@.len() - j,
{
    let cs = t[p].children@;
    if j >= cs.len() {
    } else {
        assert(d.len() > 0);
        assert(d[0] is Recurse);
        let n = cs[j] as int;
        let sub = plan(t, n, 0, d.skip(1));
        assert(forall|i: int| 0 <= i < d.skip(1).len() ==> #[trigger] d.skip(1)[i] is Recurse);
        assert(!(sub.1 is Starved));
        lemma_recurse_only_preorder(t, n, 0, d.skip(1));
        lemma_plan_consumed_le(t, n, 0, d.skip(1));
        let k = 1 + sub.0.len() as int;
        assert(forall|i: int| 0 <= i < d.skip(k).len() ==> #[trigger] d.skip(k)[i] is Recurse);
        lemma_recurse_only_preorder(t, p, j + 1, d.skip(k));
        assert(plan(t, p, j, d).0 =~= preorder(t, p, j));
    }
}

/// In a walk that ended by exhausting the sibling lists, none of the
/// consumed decisions was a `Break`.
proof fn lemma_done_no_break(t: Seq<Node>, p: int, j: int, d: Seq<ChildVisitResult>)
    requires
        tree_wf(t),
        0 <= p < t.len(),
        0 <= j,
        plan(t, p, j, d).1 is Done,
    ensures
        forall|k: int| 0 <= k < plan(t, p, j, d).0.len() ==> !(#[trigger] d[k] is Break),
    decreases t.len() - p, t[p].children@.len() - j,
{
    let cs = t[p].children@;
    let pr = plan(t, p, j, d);
    if j >= cs.len() || d.len() == 0 {
    } else {
        let n = cs[j] as int;
        match d[0] {
            ChildVisitResult::Break => {},
            ChildVisitResult::Continue => {
                lemma_done_no_break(t, p, j + 1, d.skip(1));
                lemma_plan_consumed_le(t, p, j + 1, d.skip(1));
                let rest = plan(t, p, j + 1, d.skip(1));
                assert(pr.0 =~= seq![n] + rest.0);
                assert forall|k: int| 0 <= k < pr.0.len() implies !(#[trigger] d[k]
                    is Break) by {
                    if k >= 1 {
                        assert(0 <= k - 1 < rest.0.len());
                        assert(!(d.skip(1)[k - 1] is Break));
                        assert(d.skip(1)[k - 1] == d[k]);
                    }
                }
            },
            ChildVisitResult::Recurse => {
                let sub = plan(t, n, 0, d.skip(1));
                assert(sub.1 is Done);
                lemma_done_no_break(t, n, 0, d.skip(1));
                lemma_plan_consumed_le(t, n, 0, d.skip(1));
                let k0 = 1 + sub.0.len() as int;
                let rest = plan(t, p, j + 1, d.skip(k0));
                lemma_done_no_break(t, p, j + 1, d.skip(k0));
                lemma_plan_consumed_le(t, p, j + 1, d.skip(k0));
                assert(pr.0 =~= seq![n] + sub.0 + rest.0);
                assert forall|k: int| 0 <= k < pr.0.len() implies !(#[trigger] d[k]
                    is Break) by {
                    if 1 <= k < k0 {
                        assert(0 <= k - 1 < sub.0.len());
                        assert(!(d.skip(1)[k - 1] is Break));
                        assert(d.skip(1)[k - 1] == d[k]);
                    } else if k >= k0 {
                        assert(0 <= k - k0 < rest.0.len());
                        assert(!(d.skip(k0)[k - k0] is Break));
                        assert(d.skip(k0)[k - k0] == d[k]);
                    }
                }
            },
        }
    }
}

/// In a walk that a `Break` ended, the `Break` is the last consumed decision
/// and the only one among the consumed decisions.
proof fn lemma_broke_last(t: Seq<Node>, p: int, j: int, d: Seq<ChildVisitResult>)
    requires
        tree_wf(t),
        0 <= p < t.len(),
        0 <= j,
        plan(t, p, j, d).1 is Broke,
    ensures
        ({
            let v = plan(t, p, j, d).0;
            &&& 1 <= v.len() <= d.len()
            &&& d[v.len() - 1] is Break
            &&& forall|k: int| 0 <= k < v.len() - 1 ==> !(#[trigger] d[k] is Break)
        }),
    decreases t.len() - p, t[p].children@.len() - j,
{
    let cs = t[p].children@;
    let pr = plan(t, p, j, d);
    if j >= cs.len() || d.len() == 0 {
    } else {
        let n = cs[j] as int;
        match d[0] {
            ChildVisitResult::Break => {},
            ChildVisitResult::Continue => {
                lemma_broke_last(t, p, j + 1, d.skip(1));
                let rest = plan(t, p, j + 1, d.skip(1));
                assert(d.skip(1)[rest.0.len() - 1] == d[pr.0.len() - 1]);
                assert forall|k: int| 0 <= k < pr.0.len() - 1 implies !(#[trigger] d[k]
                    is Break) by {
                    if k >= 1 {
                        assert(!(d.skip(1)[k - 1] is Break));
                    }
                }
            },
            ChildVisitResult::Recurse => {
                let sub = plan(t, n, 0, d.skip(1));
                if sub.1 is Done {
                    lemma_done_no_break(t, n, 0, d.skip(1));
                    lemma_plan_consumed_le(t, n, 0, d.skip(1));
                    let k0 = 1 + sub.0.len() as int;
                    let rest = plan(t, p, j + 1, d.skip(k0));
                    lemma_broke_last(t, p, j + 1, d.skip(k0));
                    lemma_plan_consumed_le(t, p, j + 1, d.skip(k0));
                    assert(d.skip(k0)[rest.0.len() - 1] == d[pr.0.len() - 1]);
                    assert forall|k: int| 0 <= k < pr.0.len() - 1 implies !(#[trigger] d[k]
                        is Break) by {
                        if 1 <= k < k0 {
                            assert(!(d.skip(1)[k - 1] is Break));
                        } else if k >= k0 {
                            assert(!(d.skip(k0)[k - k0] is Break));
                        }
                    }
                } else {
                    lemma_broke_last(t, n, 0, d.skip(1));
                    assert(d.skip(1)[sub.0.len() - 1] == d[pr.0.len() - 1]);
                    assert forall|k: int| 0 <= k < pr.0.len() - 1 implies !(#[trigger] d[k]
                        is Break) by {
                        if k >= 1 {
                            assert(!(d.skip(1)[k - 1] is Break));
                        }
                    }
                }
            },
        }
    }
}

/// Law: a `Break` decision ends the whole traversal at once. In a complete
/// walk — one that consumed each of its decisions and did not starve, as
/// every trace of the engine is — the first `Break` is the final decision:
/// exactly the visits up to and including it happened, whatever siblings or
/// descendants remained unvisited.
pub proof fn lemma_break_stops_traversal(t: Seq<Node>, p: int, d: Seq<ChildVisitResult>, i: int)
    requires
        tree_wf(t),
        0 <= p < t.len(),
        plan(t, p, 0, d).0.len() == d.len(),
        !(plan(t, p, 0, d).1 is Starved),
        0 <= i < d.len(),
        d[i] is Break,
        forall|k: int| 0 <= k < i ==> !(#[trigger] d[k] is Break),
    ensures
        d.len() == i + 1,
{
    if plan(t, p, 0, d).1 is Done {
        lemma_done_no_break(t, p, 0, d);
    } else {
        lemma_broke_last(t, p, 0, d);
    }
}

/// Walks the children of node `p` from child position `j` on, calling the
/// visitor once per visited node and appending each invocation to the trace.
/// Returns whether a `Break` decision aborted the walk.
fn traverse_from<V: Visitor>(
    t: &Tree,
    p: usize,
    j: usize,
    visitor: &mut V,
    trace: &mut Vec<(usize, ChildVisitResult)>,
) -> (broke: bool)
    requires
        t.wf(),
        p < t@.len(),
    ensures
        final(trace)@.len() >= old(trace)@.len(),
        final(trace)@.take(old(trace)@.len() as int) == old(trace)@,
        ({
            let suffix = final(trace)@.skip(old(trace)@.len() as int);
            plan(t@, p as int, j as int, trace_decisions(suffix)) == (
                trace_nodes(suffix),
                if broke {
                    PlanEnd::Broke
                } else {
                    PlanEnd::Done
                },
            )
        }),
    decreases t@.len() - p, t@[p as int].children@.len() - j,
{
    let cs_len = t.child_count(p);
    if j >= cs_len {
        proof {
            let suffix = trace@.skip(old(trace)@.len() as int);
            assert(trace@.take(old(trace)@.len() as int) =~= old(trace)@);
            assert(suffix =~= Seq::<(usize, ChildVisitResult)>::empty());
            assert(trace_decisions(suffix) =~= Seq::<ChildVisitResult>::empty());
            assert(trace_nodes(suffix) =~= Seq::<int>::empty());
        }
        return false;
    }
    let n = t.child_at(p, j);
    let decision = visitor.visit(n, p);
    trace.push((n, decision));
    let ghost after_push = trace@;
    proof {
        assert(after_push =~= old(trace)@ + seq![(n, decision)]);
    }
    match decision {
        ChildVisitResult::Break => {
            proof {
                let suffix = trace@.skip(old(trace)@.len() as int);
                assert(trace@.take(old(trace)@.len() as int) =~= old(trace)@);
                assert(suffix =~= seq![(n, decision)]);
                assert(trace_decisions(suffix) =~= seq![ChildVisitResult::Break]);
                assert(trace_nodes(suffix) =~= seq![n as int]);
            }
            true
        },
        ChildVisitResult::Continue => {
            let broke = traverse_from(t, p, j + 1, visitor, trace);
            proof {
                let s1 = trace@.skip(after_push.len() as int);
                let suffix = trace@.skip(old(trace)@.len() as int);
                assert(trace@.take(after_push.len() as int) == after_push);
                assert forall|i: int| 0 <= i < after_push.len() implies trace@[i]
                    == after_push[i] by {
                    assert(trace@.take(after_push.len() as int)[i] == after_push[i]);
                }
                assert(trace@ =~= after_push + s1);
                assert(trace@.take(old(trace)@.len() as int) =~= old(trace)@);
                assert(suffix =~= (old(trace)@ + seq![(n, decision)] + s1).skip(
                    old(trace)@.len() as int,
                ));
                assert(suffix =~= seq![(n, decision)] + s1);
                assert(trace_decisions(suffix) =~= seq![ChildVisitResult::Continue]
                    + trace_decisions(s1));
                assert(trace_decisions(suffix).skip(1) =~= trace_decisions(s1));
                assert(trace_nodes(suffix) =~= seq![n as int] + trace_nodes(s1));
            }
            broke
        },
        ChildVisitResult::Recurse => {
            let broke_below = traverse_from(t, n, 0, visitor, trace);
            if broke_below {
                proof {
                    let s1 = trace@.skip(after_push.len() as int);
                    let suffix = trace@.skip(old(trace)@.len() as int);
                    assert(trace@.take(after_push.len() as int) == after_push);
                    assert forall|i: int| 0 <= i < after_push.len() implies trace@[i]
                        == after_push[i] by {
                        assert(trace@.take(after_push.len() as int)[i] == after_push[i]);
                    }
                    assert(trace@ =~= after_push + s1);
                    assert(trace@.take(old(trace)@.len() as int) =~= old(trace)@);
                    assert(suffix =~= (old(trace)@ + seq![(n, decision)] + s1).skip(
                        old(trace)@.len() as int,
                    ));
                    assert(suffix =~= seq![(n, decision)] + s1);
                    assert(trace_decisions(suffix) =~= seq![ChildVisitResult::Recurse]
                        + trace_decisions(s1));
                    assert(trace_decisions(suffix).skip(1) =~= trace_decisions(s1));
                    assert(trace_nodes(suffix) =~= seq![n as int] + trace_nodes(s1));
                }
                true
            } else {
                let ghost mid = trace@;
                let broke = traverse_from(t, p, j + 1, visitor, trace);
                proof {
                    let s1 = mid.skip(after_push.len() as int);
                    let s2 = trace@.skip(mid.len() as int);
                    let suffix = trace@.skip(old(trace)@.len() as int);
                    let d1 = trace_decisions(s1);
                    let d2 = trace_decisions(s2);
                    assert(trace@.take(mid.len() as int) == mid);
                    assert(mid.take(after_push.len() as int) == after_push);
                    assert forall|i: int| 0 <= i < mid.len() implies trace@[i] == mid[i] by {
                        assert(trace@.take(mid.len() as int)[i] == mid[i]);
                    }
                    assert forall|i: int| 0 <= i < after_push.len() implies mid[i]
                        == after_push[i] by {
                        assert(mid.take(after_push.len() as int)[i] == after_push[i]);
                    }
                    assert(trace@ =~= after_push + s1 + s2);
                    assert(trace@.take(old(trace)@.len() as int) =~= old(trace)@);
                    assert(suffix =~= (old(trace)@ + seq![(n, decision)] + s1 + s2).skip(
                        old(trace)@.len() as int,
                    ));
                    assert(suffix =~= seq![(n, decision)] + s1 + s2);
                    let d = trace_decisions(suffix);
                    assert(d =~= seq![ChildVisitResult::Recurse] + d1 + d2);
                    assert(d.skip(1) =~= d1 + d2);
                    // The sub-walk ended without starving, so the sibling
                    // decisions appended after it do not change it.
                    lemma_plan_extend(t@, n as int, 0, d1, d2);
                    assert(trace_nodes(s1).len() == s1.len() && d1.len() == s1.len());
                    assert(d.skip(1 + trace_nodes(s1).len() as int) =~= d2);
                    assert(trace_nodes(suffix) =~= seq![n as int] + trace_nodes(s1)
                        + trace_nodes(s2));
                }
                broke
            }
        },
    }
}

impl Tree {
    /// Drives the visitor over the children of `root` by the traversal
    /// protocol, and returns the trace of invocations: each visited node,
    /// paired with the decision the visitor returned for it, in visit order.
    ///
    /// The trace is exactly a run of [`plan`]: the visited nodes are the ones
    /// the returned decisions prescribe, and the traversal ran to its end —
    /// either the protocol finished the sibling lists or a `Break` stopped
    /// it; it never stopped short for any other reason.
    pub fn visit_children<V: Visitor>(&self, root: usize, visitor: &mut V) -> (trace: Vec<
        (usize, ChildVisitResult),
    >)
        requires
            self.wf(),
            root < self@.len(),
        ensures
            ({
                let outcome = plan(self@, root as int, 0, trace_decisions(trace@));
                outcome.0 == trace_nodes(trace@) && !(outcome.1 is Starved)
            }),
    {
        let mut trace: Vec<(usize, ChildVisitResult)> = Vec::new();
        traverse_from(self, root, 0, visitor, &mut trace);
        proof {
            assert(trace@.skip(0) =~= trace@);
        }
        trace
    }
}

} // verus!
