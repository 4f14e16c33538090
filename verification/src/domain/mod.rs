//! Boxing domains. Each domain is a marker type; in this library all three
//! keep fold and graph closures behind `Arc`, so the marker only tags an
//! executor.
pub mod local;
pub mod owned;
pub mod shared;

use vstd::prelude::*;

verus! {

/// The shared domain: closures behind `Arc`, usable across threads.
#[derive(Clone, Copy, Debug, Default)]
pub struct Shared;

/// The local domain.
#[derive(Clone, Copy, Debug, Default)]
pub struct Local;

/// The owned domain.
#[derive(Clone, Copy, Debug, Default)]
pub struct Owned;

} // verus!
