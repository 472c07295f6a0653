//! Detects `if` expressions that sit inside the condition of another `if`.
//!
//! The crate works on a small expression tree of its own ([`ast::Expr`]). A
//! front end builds that tree for one function body and hands it to
//! [`traversal::IfInIfCondition::check_fn`], which returns one
//! [`finding::Finding`] for every conditional that the walk reaches while it is
//! inside a condition.

pub mod ast;
pub mod finding;
pub mod traversal;
pub mod laws;
