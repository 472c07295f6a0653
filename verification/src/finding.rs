//! What the walk reports.

use vstd::prelude::*;
use crate::ast::Span;

verus! {

/// One conditional that was found inside the condition of another. The
/// message and the help are the same for every finding; the span is that of
/// the inner conditional.
#[derive(Clone, Copy, Debug, PartialEq, Eq, Hash, Structural)]
pub struct Finding {
    pub span: Span,
}

impl Finding {
    /// The text of [`Finding::message`].
    pub open spec fn message_text() -> Seq<char> {
        "conditional expression in conditional condition"@
    }

    /// The text of [`Finding::help`].
    pub open spec fn help_text() -> Seq<char> {
        "assign the result of the inner conditional to a variable and use the variable in the condition instead"@
    }

    /// The finding for the conditional at `span`.
    pub fn new(span: Span) -> (finding: Finding)
        ensures
            finding == (Finding { span }),
    {
        Finding { span }
    }

    /// What is wrong, in one line.
    pub fn message(&self) -> (text: &'static str)
        ensures
            text@ == Finding::message_text(),
    {
        "conditional expression in conditional condition"
    }

    /// What to do about it.
    pub fn help(&self) -> (text: &'static str)
        ensures
            text@ == Finding::help_text(),
    {
        "assign the result of the inner conditional to a variable and use the variable in the condition instead"
    }
}

} // verus!
