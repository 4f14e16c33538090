//! Hylomorphisms: a graph with a top-level entry, a fold, and the heap that
//! the fold starts from at the top.
pub mod adapter;
pub mod graph_with_fold;

pub use adapter::FoldAdapter;
pub use graph_with_fold::GraphWithFold;
