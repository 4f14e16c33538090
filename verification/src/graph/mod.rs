//! Graphs as edge functions: an `Edgy` gives, for each node, its outgoing
//! edges in order; a `Treeish` is an `Edgy` whose edges are child nodes.
pub mod combinators;
pub mod edgy;
pub mod either;
pub mod graph;
pub mod raco_adapter;
pub mod seed;
pub mod treeish_from_err_edgy;

pub use edgy::{edgy, treeish, Edgy};
pub use either::Either;
pub use graph::Graph;
pub use seed::SeedGraph;
