//! Failure reporting and label propagation for a backtracking combinator parser.
//!
//! The crate holds the span algebra that locates a failure, the capability
//! traits an error type offers to the parsing engine, a ready-made error type,
//! and the combinator that rewrites failures with a label or a context.

pub mod error;
pub mod input;
pub mod label;
pub mod render;
pub mod span;
