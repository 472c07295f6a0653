//! The expression tree that the walk reads.
//!
//! A front end lowers one function body into an [`Expr`]. The tree keeps only
//! what the walk looks at: where a node is, whether it came out of a macro,
//! whether it is a conditional, and what lies below it.

use vstd::prelude::*;

verus! {

/// A region of source text, as a pair of byte offsets.
#[derive(Clone, Copy, Debug, PartialEq, Eq, Hash, Structural)]
pub struct Span {
    pub lo: u32,
    pub hi: u32,
}

impl Span {
    /// The span from `lo` to `hi`.
    pub fn new(lo: u32, hi: u32) -> (span: Span)
        ensures
            span == (Span { lo, hi }),
    {
        Span { lo, hi }
    }
}

/// One expression of a function body.
#[derive(Debug)]
pub struct Expr {
    /// Where the expression stands in the source.
    pub span: Span,
    /// Whether the expression was produced by a macro rather than written out.
    pub from_expansion: bool,
    /// What the expression is, with the expressions below it.
    pub kind: ExprKind,
}

/// The two shapes of expression that the walk tells apart.
#[derive(Debug)]
pub enum ExprKind {
    /// An `if` with its condition, its body and what follows `else`, if
    /// anything does. In an `else if` chain the `else_branch` is itself a
    /// conditional.
    Conditional { condition: Box<Expr>, then_branch: Box<Expr>, else_branch: Option<Box<Expr>> },
    /// Any other expression, with its direct sub-expressions in source order.
    Other { children: Vec<Expr> },
}

impl Expr {
    /// Whether `self` lays a conditional whose span is `span` open to the
    /// condition that `self` stands in: `self` is that conditional, or the
    /// condition of `self` lays it open, or, where `self` is no conditional, a
    /// child of `self` does. The way to it leads through no body and no `else`
    /// part, and nothing on it, the two ends included, comes from a macro.
    pub open spec fn exposes_conditional_at(self, span: Span) -> bool
        decreases self,
    {
        !self.from_expansion && match self.kind {
            ExprKind::Conditional { condition, .. } => {
                ||| self.span == span
                ||| condition.exposes_conditional_at(span)
            },
            ExprKind::Other { children } => exists|i: int|
                0 <= i < children@.len() && (#[trigger] children@[i]).exposes_conditional_at(span),
        }
    }

    /// Whether a conditional whose span is `span` is nested in a condition
    /// somewhere in `self`: there is a conditional in `self`, below no node
    /// from a macro, whose condition lays it open.
    pub open spec fn has_nested_conditional_at(self, span: Span) -> bool
        decreases self,
    {
        !self.from_expansion && match self.kind {
            ExprKind::Conditional { condition, then_branch, else_branch } => {
                ||| condition.exposes_conditional_at(span)
                ||| condition.has_nested_conditional_at(span)
                ||| then_branch.has_nested_conditional_at(span)
                ||| else_branch matches Some(e) && e.has_nested_conditional_at(span)
            },
            ExprKind::Other { children } => exists|i: int|
                0 <= i < children@.len() && (
                #[trigger] children@[i]).has_nested_conditional_at(span),
        }
    }

    /// Whether some conditional is nested in a condition somewhere in `self`.
    pub open spec fn has_conditional_in_condition(self) -> bool {
        exists|span: Span| self.has_nested_conditional_at(span)
    }

    /// An expression without sub-expressions, such as a literal or a path.
    pub fn leaf(span: Span) -> (expr: Expr)
        ensures
            expr.span == span,
            !expr.from_expansion,
            expr.kind matches ExprKind::Other { children } && children@ == Seq::<Expr>::empty(),
    {
        Expr { span, from_expansion: false, kind: ExprKind::Other { children: Vec::new() } }
    }

    /// An expression that is no conditional, over `children`.
    pub fn other(span: Span, children: Vec<Expr>) -> (expr: Expr)
        ensures
            expr == (Expr { span, from_expansion: false, kind: ExprKind::Other { children } }),
    {
        Expr { span, from_expansion: false, kind: ExprKind::Other { children } }
    }

    /// The conditional `if condition then_branch`, followed by
    /// `else else_branch` where one is given.
    pub fn conditional(
        span: Span,
        condition: Expr,
        then_branch: Expr,
        else_branch: Option<Expr>,
    ) -> (expr: Expr)
        ensures
            expr == (Expr {
                span,
                from_expansion: false,
                kind: ExprKind::Conditional {
                    condition: Box::new(condition),
                    then_branch: Box::new(then_branch),
                    else_branch: match else_branch {
                        Some(e) => Some(Box::new(e)),
                        None => None,
                    },
                },
            }),
    {
        let else_branch = match else_branch {
            Some(e) => Some(Box::new(e)),
            None => None,
        };
        Expr {
            span,
            from_expansion: false,
            kind: ExprKind::Conditional {
                condition: Box::new(condition),
                then_branch: Box::new(then_branch),
                else_branch,
            },
        }
    }

    /// The same expression, marked as produced by a macro.
    pub fn in_macro(self) -> (expr: Expr)
        ensures
            expr == (Expr { span: self.span, from_expansion: true, kind: self.kind }),
    {
        Expr { span: self.span, from_expansion: true, kind: self.kind }
    }
}

} // verus!
