//! What holds of every walk: where exactly it reports, what it skips, and
//! that it leaves nothing behind. The lemmas on sequences further down carry
//! the proofs.

use vstd::prelude::*;
use crate::ast::{Expr, ExprKind, Span};
use crate::finding::Finding;
use crate::traversal::{
    context_after, is_reported_at, report, visit_each_findings, visit_findings, ConditionContext,
    IfInIfCondition,
};

verus! {

/// Nothing is reported falsely and nothing is missed: a visit of `expr` in
/// context `ctx` makes a finding at `span` exactly where a conditional at
/// `span` is nested in a condition somewhere in `expr`, or, for a visit inside
/// a condition, is laid open by `expr` to that condition.
pub proof fn lemma_reported_where_nested(expr: Expr, ctx: ConditionContext, span: Span)
    ensures
        visit_findings(expr, ctx).contains(Finding { span }) <==> is_reported_at(expr, ctx, span),
    decreases expr,
{
    let finding = Finding { span };
    let inside = ConditionContext::InsideCondition;
    let outer = ConditionContext::Outer;
    if expr.from_expansion {
        assert(!visit_findings(expr, ctx).contains(finding));
    } else {
        match expr.kind {
            ExprKind::Conditional { condition, then_branch, else_branch } => {
                let own = report(expr, ctx);
                let in_condition = visit_findings(*condition, inside);
                let in_body = visit_findings(*then_branch, outer);
                let in_else = match else_branch {
                    Some(e) => visit_findings(*e, outer),
                    None => Seq::empty(),
                };
                lemma_reported_where_nested(*condition, inside, span);
                lemma_reported_where_nested(*then_branch, outer, span);
                if let Some(e) = else_branch {
                    lemma_reported_where_nested(*e, outer, span);
                } else {
                    assert(!in_else.contains(finding));
                }
                assert(own.contains(finding) <==> ctx == inside && expr.span == span) by {
                    if ctx == inside {
                        assert(own[0] == Finding { span: expr.span });
                    }
                }
                lemma_contains_in_either(own, in_condition, finding);
                lemma_contains_in_either(own + in_condition, in_body, finding);
                lemma_contains_in_either(own + in_condition + in_body, in_else, finding);
            },
            ExprKind::Other { children } => {
                lemma_reported_where_nested_each(children@, ctx, span);
            },
        }
    }
}

/// Every conditional that stands in a condition, with no body and no `else`
/// part between the two and nothing from a macro above it, is reported: if
/// the condition of the conditional `outer` lays a conditional at `span`
/// open, a visit of `outer` in whatever context makes a finding at `span`.
/// This holds of a conditional that is the whole condition, of one that is
/// any operand of it, and of one further down in an operand.
pub proof fn lemma_conditional_in_condition_is_reported(
    outer: Expr,
    ctx: ConditionContext,
    span: Span,
)
    requires
        !outer.from_expansion,
        outer.kind is Conditional,
        outer.kind->condition.exposes_conditional_at(span),
    ensures
        visit_findings(outer, ctx).contains(Finding { span }),
{
    lemma_reported_where_nested(outer, ctx, span);
}

/// Where no conditional is nested in a condition, a visit in ordinary code
/// finds nothing.
pub proof fn lemma_no_nesting_no_finding(expr: Expr)
    requires
        !expr.has_conditional_in_condition(),
    ensures
        visit_findings(expr, ConditionContext::Outer) == Seq::<Finding>::empty(),
{
    let findings = visit_findings(expr, ConditionContext::Outer);
    if findings.len() > 0 {
        let span = findings[0].span;
        assert(findings[0] == Finding { span });
        lemma_reported_where_nested(expr, ConditionContext::Outer, span);
        assert(expr.has_nested_conditional_at(span));
    }
    assert(findings =~= Seq::<Finding>::empty());
}

/// A function whose body has no conditional nested in a condition yields no
/// finding.
pub proof fn lemma_check_without_nesting_is_empty(body: Expr, from_expansion: bool)
    requires
        !body.has_conditional_in_condition(),
    ensures
        IfInIfCondition::findings(body, from_expansion) == Seq::<Finding>::empty(),
{
    lemma_no_nesting_no_finding(body);
}

/// A node that came out of a macro is skipped: visiting it finds nothing,
/// whatever lies below it, and leaves the visitor's context as it was.
pub proof fn lemma_macro_expansion_is_skipped(expr: Expr, ctx: ConditionContext)
    requires
        expr.from_expansion,
    ensures
        visit_findings(expr, ctx) == Seq::<Finding>::empty(),
        context_after(expr, ctx) == ctx,
{
}

/// A visit that starts in ordinary code leaves the visitor in ordinary code.
/// A second visit of the same body with the same visitor therefore finds
/// exactly what the first one found.
pub proof fn lemma_second_visit_finds_the_same(body: Expr)
    ensures
        context_after(body, ConditionContext::Outer) == ConditionContext::Outer,
        visit_findings(body, context_after(body, ConditionContext::Outer)) == visit_findings(
            body,
            ConditionContext::Outer,
        ),
{
}

/// Checking the same function again yields the same findings: they depend on
/// the body and on nothing that an earlier check could have left behind.
pub proof fn lemma_check_is_repeatable(
    body: Expr,
    from_expansion: bool,
    first: Seq<Finding>,
    second: Seq<Finding>,
)
    requires
        first == IfInIfCondition::findings(body, from_expansion),
        second == IfInIfCondition::findings(body, from_expansion),
    ensures
        first == second,
{
}

/// Visiting each of `nodes` in `ctx` makes a finding at `span` exactly where
/// the visit of one of them does.
proof fn lemma_reported_where_nested_each(nodes: Seq<Expr>, ctx: ConditionContext, span: Span)
    ensures
        visit_each_findings(nodes, ctx).contains(Finding { span }) <==> exists|i: int|
            0 <= i < nodes.len() && is_reported_at(#[trigger] nodes[i], ctx, span),
    decreases nodes,
{
    let finding = Finding { span };
    if nodes.len() == 0 {
        assert(!visit_each_findings(nodes, ctx).contains(finding));
    } else {
        let rest = nodes.subrange(1, nodes.len() as int);
        lemma_reported_where_nested(nodes[0], ctx, span);
        lemma_reported_where_nested_each(rest, ctx, span);
        lemma_contains_in_either(
            visit_findings(nodes[0], ctx),
            visit_each_findings(rest, ctx),
            finding,
        );
        if exists|i: int| 0 <= i < rest.len() && is_reported_at(#[trigger] rest[i], ctx, span) {
            let k = choose|i: int|
                0 <= i < rest.len() && is_reported_at(#[trigger] rest[i], ctx, span);
            assert(rest[k] == nodes[k + 1]);
        }
        if exists|i: int| 0 <= i < nodes.len() && is_reported_at(#[trigger] nodes[i], ctx, span) {
            let k = choose|i: int|
                0 <= i < nodes.len() && is_reported_at(#[trigger] nodes[i], ctx, span);
            if k > 0 {
                assert(rest[k - 1] == nodes[k]);
            }
        }
    }
}

/// A value occurs in two sequences put end to end exactly if it occurs in one
/// of them.
proof fn lemma_contains_in_either(first: Seq<Finding>, second: Seq<Finding>, finding: Finding)
    ensures
        (first + second).contains(finding) <==> first.contains(finding) || second.contains(
            finding,
        ),
{
    let all = first + second;
    if first.contains(finding) {
        let k = choose|k: int| 0 <= k < first.len() && first[k] == finding;
        assert(all[k] == finding);
    }
    if second.contains(finding) {
        let k = choose|k: int| 0 <= k < second.len() && second[k] == finding;
        assert(all[first.len() + k] == finding);
    }
    if all.contains(finding) {
        let k = choose|k: int| 0 <= k < all.len() && all[k] == finding;
        if k < first.len() {
            assert(first[k] == finding);
        } else {
            assert(second[k - first.len()] == finding);
        }
    }
}

} // verus!
