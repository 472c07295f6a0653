//! The walk over one function body.
//!
//! Every node is visited in a [`ConditionContext`], which says whether the
//! node lies in the condition of a conditional with no body and no `else` part
//! in between. The context is handed down: the condition of a conditional is
//! visited inside a condition, its body and its `else` part in ordinary code,
//! and the children of any other node in the context of that node. A
//! conditional that is visited inside a condition is reported.
//!
//! [`visit_findings`] says what a visit finds. [`IfVisitor`] computes it, with
//! the context of the node in hand held in a field.

use vstd::prelude::*;
use crate::ast::{Expr, ExprKind, Span};
use crate::finding::Finding;
use crate::laws::{lemma_no_nesting_no_finding, lemma_reported_where_nested};

verus! {

/// Where a node stands relative to the conditions around it.
#[derive(Clone, Copy, Debug, PartialEq, Eq, Hash, Structural)]
pub enum ConditionContext {
    /// In ordinary code: a conditional met here is not reported.
    Outer,
    /// In the condition of a conditional, with no body and no `else` part in
    /// between: a conditional met here is reported.
    InsideCondition,
}

/// What a visit of the conditional `expr` in context `ctx` reports about
/// `expr` itself: one finding at its span inside a condition, nothing
/// elsewhere.
pub open spec fn report(expr: Expr, ctx: ConditionContext) -> Seq<Finding> {
    if ctx == ConditionContext::InsideCondition {
        seq![Finding { span: expr.span }]
    } else {
        Seq::empty()
    }
}

/// The findings of a visit of `expr` in context `ctx`, in the order in which
/// the walk makes them.
///
/// A node from a macro yields nothing. A conditional is reported if `ctx` is
/// inside a condition; then its condition is visited inside a condition, and
/// its body and its `else` part in ordinary code. Any other node has each of
/// its children visited in `ctx`.
pub open spec fn visit_findings(expr: Expr, ctx: ConditionContext) -> Seq<Finding>
    decreases expr,
{
    if expr.from_expansion {
        Seq::empty()
    } else {
        match expr.kind {
            ExprKind::Conditional { condition, then_branch, else_branch } => {
                report(expr, ctx) + visit_findings(*condition, ConditionContext::InsideCondition)
                    + visit_findings(*then_branch, ConditionContext::Outer) + match else_branch {
                    Some(e) => visit_findings(*e, ConditionContext::Outer),
                    None => Seq::empty(),
                }
            },
            ExprKind::Other { children } => visit_each_findings(children@, ctx),
        }
    }
}

/// The findings of visiting each of `nodes` in context `ctx`, one after the
/// other.
pub open spec fn visit_each_findings(nodes: Seq<Expr>, ctx: ConditionContext) -> Seq<Finding>
    decreases nodes,
{
    if nodes.len() == 0 {
        Seq::empty()
    } else {
        visit_findings(nodes[0], ctx) + visit_each_findings(
            nodes.subrange(1, nodes.len() as int),
            ctx,
        )
    }
}

/// Whether a visit of `expr` in context `ctx` has a conditional at `span` to
/// report: one that is nested in a condition somewhere in `expr`, or, inside a
/// condition, one that `expr` lays open to that condition.
pub open spec fn is_reported_at(expr: Expr, ctx: ConditionContext, span: Span) -> bool {
    ||| ctx == ConditionContext::InsideCondition && expr.exposes_conditional_at(span)
    ||| expr.has_nested_conditional_at(span)
}

/// The context that a visit of `expr` leaves in the visitor that entered it
/// in context `ctx`. A node from a macro is skipped and leaves the context as
/// it was; after any other node the visitor is back in ordinary code. This
/// speaks of the visitor's state alone: what is found does not depend on it.
pub open spec fn context_after(expr: Expr, ctx: ConditionContext) -> ConditionContext {
    if expr.from_expansion {
        ctx
    } else {
        ConditionContext::Outer
    }
}

/// What an [`IfVisitor`] holds, as plain values.
pub struct VisitorState {
    /// The context in which the next node will be visited.
    pub context: ConditionContext,
    /// The findings made so far, oldest first.
    pub findings: Seq<Finding>,
}

/// The walk, with its state. One visitor is made for one function body.
pub struct IfVisitor {
    context: ConditionContext,
    findings: Vec<Finding>,
}

impl View for IfVisitor {
    type V = VisitorState;

    closed spec fn view(&self) -> VisitorState {
        VisitorState { context: self.context, findings: self.findings@ }
    }
}

impl IfVisitor {
    /// A visitor that stands in ordinary code and has found nothing.
    pub fn new() -> (visitor: IfVisitor)
        ensures
            visitor@.context == ConditionContext::Outer,
            visitor@.findings == Seq::<Finding>::empty(),
    {
        IfVisitor { context: ConditionContext::Outer, findings: Vec::new() }
    }

    /// The context in which the next node will be visited.
    pub fn context(&self) -> (ctx: ConditionContext)
        ensures
            ctx == self@.context,
    {
        self.context
    }

    /// Gives up the visitor for the findings it has made, oldest first.
    pub fn into_findings(self) -> (findings: Vec<Finding>)
        ensures
            findings@ == self@.findings,
    {
        self.findings
    }

    /// Visits `expr` in the current context: appends what [`visit_findings`]
    /// gives for it and leaves the context that [`context_after`] gives. A
    /// node from a macro leaves the visitor as it was.
    pub fn visit_expr(&mut self, expr: &Expr)
        ensures
            final(self)@.findings == old(self)@.findings + visit_findings(
                *expr,
                old(self)@.context,
            ),
            final(self)@.context == context_after(*expr, old(self)@.context),
            expr.from_expansion ==> final(self)@ == old(self)@,
        decreases expr,
    {
        if expr.from_expansion {
            assert(self@.findings + Seq::<Finding>::empty() =~= self@.findings);
            return ;
        }
        let ctx = self.context;
        match &expr.kind {
            ExprKind::Conditional { condition, then_branch, else_branch } => {
                if ctx == ConditionContext::InsideCondition {
                    self.findings.push(Finding::new(expr.span));
                }
                self.context = ConditionContext::InsideCondition;
                self.visit_expr(condition);
                self.context = ConditionContext::Outer;
                self.visit_expr(then_branch);
                if let Some(e) = else_branch {
                    self.context = ConditionContext::Outer;
                    self.visit_expr(e);
                }
            },
            ExprKind::Other { children } => {
                let mut i: usize = 0;
                assert(children@.subrange(0, children@.len() as int) =~= children@);
                while i < children.len()
                    invariant
                        i <= children.len(),
                        expr.kind == (ExprKind::Other { children: *children }),
                        ctx == old(self)@.context,
                        old(self)@.findings + visit_each_findings(children@, ctx)
                            == self@.findings + visit_each_findings(
                            children@.subrange(i as int, children@.len() as int),
                            ctx,
                        ),
                    decreases children.len() - i,
                {
                    proof {
                        let rest = children@.subrange(i as int, children@.len() as int);
                        assert(rest[0] == children@[i as int]);
                        assert(rest.subrange(1, rest.len() as int) =~= children@.subrange(
                            i as int + 1,
                            children@.len() as int,
                        ));
                        assert(decreases_to!(*expr => expr.kind->children@[i as int]));
                    }
                    self.context = ctx;
                    self.visit_expr(&children[i]);
                    i += 1;
                }
            },
        }
        self.context = ConditionContext::Outer;
    }
}

/// The rule itself, applied to one function at a time.
pub struct IfInIfCondition;

impl IfInIfCondition {
    /// The findings for a function whose body is `body`: none if the function
    /// as a whole came out of an expansion, otherwise what a visit of `body`
    /// in ordinary code finds.
    pub open spec fn findings(body: Expr, from_expansion: bool) -> Seq<Finding> {
        if from_expansion {
            Seq::empty()
        } else {
            visit_findings(body, ConditionContext::Outer)
        }
    }

    /// Whether a function is passed over without a look at its body: it is
    /// when the function as a whole came out of an expansion. A caller that
    /// has to build the body first can ask this before it does.
    pub fn passes_over(&self, from_expansion: bool) -> (exempt: bool)
        ensures
            exempt == from_expansion,
            exempt ==> forall|body: Expr|
                #[trigger] IfInIfCondition::findings(body, from_expansion) == Seq::<
                    Finding,
                >::empty(),
    {
        from_expansion
    }

    /// Checks one function, given its body and whether the function as a whole
    /// came out of an expansion. Returns the findings in the order of the
    /// walk, made by a visitor of its own. Unless the function is passed over,
    /// there is a finding at a span exactly where a conditional at that span
    /// is nested in a condition of `body`; a body without such a conditional
    /// yields none.
    pub fn check_fn(&self, body: &Expr, from_expansion: bool) -> (findings: Vec<Finding>)
        ensures
            findings@ == IfInIfCondition::findings(*body, from_expansion),
            forall|span: Span|
                findings@.contains(Finding { span }) <==> !from_expansion
                    && #[trigger] body.has_nested_conditional_at(span),
            !body.has_conditional_in_condition() ==> findings@.len() == 0,
    {
        if from_expansion {
            return Vec::new();
        }
        let mut visitor = IfVisitor::new();
        visitor.visit_expr(body);
        proof {
            assert forall|span: Span|
                visit_findings(*body, ConditionContext::Outer).contains(Finding { span })
                    <==> #[trigger] body.has_nested_conditional_at(span) by {
                lemma_reported_where_nested(*body, ConditionContext::Outer, span);
            }
            if !body.has_conditional_in_condition() {
                lemma_no_nesting_no_finding(*body);
            }
        }
        visitor.into_findings()
    }
}

} // verus!
