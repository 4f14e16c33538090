//! Funnel policies: when to wake idle workers, and how child results are
//! accumulated.
pub mod accumulate;
pub mod wake;
