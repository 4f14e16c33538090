//! The funnel executor's building blocks.
pub mod cps;
pub mod infra;
pub mod policy;
