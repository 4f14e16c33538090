//! Folds: `init` a heap at a node, `accumulate` child results into it,
//! `finalize` the heap into the node's result.
pub mod algebra;
pub mod combinators;
pub mod explainer;
pub mod transformations;

pub use algebra::{fold, simple_fold, Fold};
