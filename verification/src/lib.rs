//! Decomposed recursive tree computation: folds, graphs and executors.
pub mod fold;

pub mod domain;
pub mod exec;
pub mod graph;
pub mod hylo;
