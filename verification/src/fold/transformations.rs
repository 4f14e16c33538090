//! Phase-level rewrites of a fold: replace one phase by what a mapper makes
//! of it, keeping the other two. They live beside `Fold`, whose phases they
//! read.
pub use crate::fold::algebra::{map_accumulate, map_finalize, map_init};
