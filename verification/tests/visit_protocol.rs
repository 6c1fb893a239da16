use juice::kind::Kind;
use juice::visit::{ChildVisitResult, Tree, Visitor};

/// A visitor with arbitrary caller state: it records every invocation and
/// answers from a fixed script, falling back to `Continue`.
struct Scripted {
    script: Vec<ChildVisitResult>,
    calls: Vec<(usize, usize)>,
}

impl Scripted {
    fn new(script: Vec<ChildVisitResult>) -> Scripted {
        Scripted { script, calls: Vec::new() }
    }
}

impl Visitor for Scripted {
    fn visit(&mut self, node: usize, parent: usize) -> ChildVisitResult {
        let decision = if self.calls.len() < self.script.len() {
            self.script[self.calls.len()]
        } else {
            ChildVisitResult::Continue
        };
        self.calls.push((node, parent));
        decision
    }
}

/// One root with three children; the middle child has two children of its
/// own. Arena indices: root 0, children 1, 2, 3, grandchildren 4, 5.
fn sample_tree() -> Tree {
    let mut t = Tree::new(Kind::TranslationUnit);
    let c1 = t.add_child(0, Kind::FunctionDecl);
    let c2 = t.add_child(0, Kind::StructDecl);
    let c3 = t.add_child(0, Kind::VarDecl);
    assert_eq!((c1, c2, c3), (1, 2, 3));
    let g1 = t.add_child(c2, Kind::FieldDecl);
    let g2 = t.add_child(c2, Kind::FieldDecl);
    assert_eq!((g1, g2), (4, 5));
    t
}

fn visited(trace: &[(usize, ChildVisitResult)]) -> Vec<usize> {
    trace.iter().map(|entry| entry.0).collect()
}

#[test]
fn continue_only_visits_direct_children() {
    let t = sample_tree();
    let mut v = Scripted::new(vec![]);
    let trace = t.visit_children(0, &mut v);
    assert_eq!(visited(&trace), vec![1, 2, 3]);
    assert_eq!(v.calls, vec![(1, 0), (2, 0), (3, 0)]);
    assert!(!visited(&trace).contains(&4));
    assert!(!visited(&trace).contains(&5));
}

#[test]
fn recurse_only_visits_all_descendants_in_preorder() {
    let t = sample_tree();
    let mut v = Scripted::new(vec![ChildVisitResult::Recurse; 5]);
    let trace = t.visit_children(0, &mut v);
    assert_eq!(visited(&trace), vec![1, 2, 4, 5, 3]);
    assert_eq!(v.calls, vec![(1, 0), (2, 0), (4, 2), (5, 2), (3, 0)]);
}

#[test]
fn break_on_second_invocation_stops_after_two() {
    let t = sample_tree();
    let mut v = Scripted::new(vec![ChildVisitResult::Continue, ChildVisitResult::Break]);
    let trace = t.visit_children(0, &mut v);
    assert_eq!(trace.len(), 2);
    assert_eq!(visited(&trace), vec![1, 2]);
    assert_eq!(v.calls.len(), 2);
}

#[test]
fn break_at_depth_aborts_pending_siblings_everywhere() {
    let t = sample_tree();
    // Continue past child 1, descend into child 2, break on grandchild 4:
    // neither grandchild 5 nor child 3 is visited.
    let mut v = Scripted::new(vec![
        ChildVisitResult::Continue,
        ChildVisitResult::Recurse,
        ChildVisitResult::Break,
    ]);
    let trace = t.visit_children(0, &mut v);
    assert_eq!(visited(&trace), vec![1, 2, 4]);
}

#[test]
fn recurse_into_one_branch_only() {
    let t = sample_tree();
    let mut v = Scripted::new(vec![
        ChildVisitResult::Continue,
        ChildVisitResult::Recurse,
        ChildVisitResult::Continue,
        ChildVisitResult::Continue,
        ChildVisitResult::Continue,
    ]);
    let trace = t.visit_children(0, &mut v);
    assert_eq!(visited(&trace), vec![1, 2, 4, 5, 3]);
    assert_eq!(v.calls, vec![(1, 0), (2, 0), (4, 2), (5, 2), (3, 0)]);
}

#[test]
fn traversal_from_inner_node_sees_its_children_only() {
    let t = sample_tree();
    let mut v = Scripted::new(vec![]);
    let trace = t.visit_children(2, &mut v);
    assert_eq!(visited(&trace), vec![4, 5]);
    assert_eq!(v.calls, vec![(4, 2), (5, 2)]);
}

#[test]
fn childless_start_node_never_invokes_the_visitor() {
    let t = sample_tree();
    let mut v = Scripted::new(vec![]);
    let trace = t.visit_children(1, &mut v);
    assert!(trace.is_empty());
    assert!(v.calls.is_empty());
}

#[test]
fn decisions_encode_to_the_native_codes() {
    assert_eq!(ChildVisitResult::Break.to_native(), 0);
    assert_eq!(ChildVisitResult::Continue.to_native(), 1);
    assert_eq!(ChildVisitResult::Recurse.to_native(), 2);
}

#[test]
fn tree_reports_its_shape() {
    let t = sample_tree();
    assert_eq!(t.len(), 6);
    assert_eq!(t.child_count(0), 3);
    assert_eq!(t.child_count(2), 2);
    assert_eq!(t.child_at(0, 1), 2);
    assert_eq!(t.child_at(2, 0), 4);
    assert!(matches!(t.kind_of(0), Kind::TranslationUnit));
    assert!(matches!(t.kind_of(4), Kind::FieldDecl));
}
