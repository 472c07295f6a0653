//! The visitor step by step, the builders, and the texts of a finding.

use ifs_in_if_conditions::ast::{Expr, ExprKind, Span};
use ifs_in_if_conditions::finding::Finding;
use ifs_in_if_conditions::traversal::{ConditionContext, IfVisitor};

fn sp(lo: u32, hi: u32) -> Span {
    Span::new(lo, hi)
}

/// `if a {1}else{0}` with `if` at `lo`: 15 bytes.
fn small_if(lo: u32) -> Expr {
    Expr::conditional(
        sp(lo, lo + 15),
        Expr::leaf(sp(lo + 3, lo + 4)),
        Expr::other(sp(lo + 5, lo + 8), vec![Expr::leaf(sp(lo + 6, lo + 7))]),
        Some(Expr::other(sp(lo + 12, lo + 15), vec![Expr::leaf(sp(lo + 13, lo + 14))])),
    )
}

#[test]
fn new_visitor_stands_in_ordinary_code() {
    let visitor = IfVisitor::new();
    assert_eq!(visitor.context(), ConditionContext::Outer);
    assert_eq!(visitor.into_findings(), vec![]);
}

#[test]
fn visit_ends_in_ordinary_code() {
    let mut visitor = IfVisitor::new();
    visitor.visit_expr(&small_if(0));
    assert_eq!(visitor.context(), ConditionContext::Outer);
    visitor.visit_expr(&Expr::leaf(sp(20, 21)));
    assert_eq!(visitor.context(), ConditionContext::Outer);
    assert_eq!(visitor.into_findings(), vec![]);
}

#[test]
fn visit_of_macro_expanded_node_changes_nothing() {
    let mut visitor = IfVisitor::new();
    visitor.visit_expr(&small_if(0).in_macro());
    assert_eq!(visitor.context(), ConditionContext::Outer);
    assert_eq!(visitor.into_findings(), vec![]);
}

#[test]
fn visit_of_a_conditional_alone_reports_nothing() {
    // A visitor stands in ordinary code whenever a caller can reach it, so a
    // conditional handed to it directly is not in a condition.
    let mut visitor = IfVisitor::new();
    visitor.visit_expr(&small_if(0));
    visitor.visit_expr(&small_if(20));
    assert_eq!(visitor.context(), ConditionContext::Outer);
    assert_eq!(visitor.into_findings(), vec![]);
}

#[test]
fn second_visit_with_the_same_visitor_finds_the_same_again() {
    // if (if a {1}else{0}) > 5 {x}
    let body = Expr::conditional(
        sp(0, 28),
        Expr::other(sp(3, 24), vec![small_if(4), Expr::leaf(sp(23, 24))]),
        Expr::other(sp(25, 28), vec![Expr::leaf(sp(26, 27))]),
        None,
    );
    let mut visitor = IfVisitor::new();
    visitor.visit_expr(&body);
    visitor.visit_expr(&body);
    assert_eq!(
        visitor.into_findings(),
        vec![Finding::new(sp(4, 19)), Finding::new(sp(4, 19))]
    );
}

#[test]
fn findings_of_several_visits_are_kept_in_order() {
    // if (if a {1}else{0}) > 5 {}; y; if (if b {1}else{0}) > 5 {}
    let first = Expr::conditional(
        sp(0, 27),
        Expr::other(sp(3, 24), vec![small_if(4), Expr::leaf(sp(23, 24))]),
        Expr::other(sp(25, 27), vec![]),
        None,
    );
    let second = Expr::conditional(
        sp(32, 59),
        Expr::other(sp(35, 56), vec![small_if(36), Expr::leaf(sp(55, 56))]),
        Expr::other(sp(57, 59), vec![]),
        None,
    );
    let mut visitor = IfVisitor::new();
    visitor.visit_expr(&first);
    visitor.visit_expr(&Expr::leaf(sp(29, 30)));
    visitor.visit_expr(&second);
    assert_eq!(
        visitor.into_findings(),
        vec![Finding::new(sp(4, 19)), Finding::new(sp(36, 51))]
    );
}

#[test]
fn finding_carries_the_fixed_texts() {
    let finding = Finding::new(sp(4, 20));
    assert_eq!(finding.span, Span { lo: 4, hi: 20 });
    assert_eq!(finding.message(), "conditional expression in conditional condition");
    assert_eq!(
        finding.help(),
        "assign the result of the inner conditional to a variable and use the variable in the condition instead"
    );
}

#[test]
fn span_keeps_its_offsets() {
    let span = Span::new(3, 9);
    assert_eq!(span.lo, 3);
    assert_eq!(span.hi, 9);
    assert_eq!(span, Span { lo: 3, hi: 9 });
    assert_ne!(span, Span::new(3, 10));
}

#[test]
fn leaf_has_no_children_and_is_not_from_a_macro() {
    let expr = Expr::leaf(sp(1, 2));
    assert_eq!(expr.span, sp(1, 2));
    assert!(!expr.from_expansion);
    assert!(matches!(&expr.kind, ExprKind::Other { children } if children.is_empty()));
}

#[test]
fn other_keeps_its_children_in_order() {
    let expr = Expr::other(sp(0, 9), vec![Expr::leaf(sp(1, 2)), Expr::leaf(sp(3, 4))]);
    assert_eq!(expr.span, sp(0, 9));
    assert!(!expr.from_expansion);
    match &expr.kind {
        ExprKind::Other { children } => {
            assert_eq!(children.len(), 2);
            assert_eq!(children[0].span, sp(1, 2));
            assert_eq!(children[1].span, sp(3, 4));
        }
        ExprKind::Conditional { .. } => panic!("built a conditional"),
    }
}

#[test]
fn conditional_keeps_its_three_parts() {
    let expr = small_if(10);
    assert_eq!(expr.span, sp(10, 25));
    assert!(!expr.from_expansion);
    match &expr.kind {
        ExprKind::Conditional { condition, then_branch, else_branch } => {
            assert_eq!(condition.span, sp(13, 14));
            assert_eq!(then_branch.span, sp(15, 18));
            assert_eq!(else_branch.as_ref().map(|e| e.span), Some(sp(22, 25)));
        }
        ExprKind::Other { .. } => panic!("built no conditional"),
    }
    let without_else = Expr::conditional(sp(0, 8), Expr::leaf(sp(3, 4)), Expr::leaf(sp(5, 8)), None);
    assert!(matches!(&without_else.kind, ExprKind::Conditional { else_branch: None, .. }));
}

#[test]
fn in_macro_marks_the_node_and_keeps_the_rest() {
    let expr = small_if(0).in_macro();
    assert!(expr.from_expansion);
    assert_eq!(expr.span, sp(0, 15));
    assert!(matches!(&expr.kind, ExprKind::Conditional { .. }));
}
