//! Continuation-passing data: tasks, continuations and the root result cell.
pub mod chain;
pub mod cont;
