//! `Either`: one of two values. Error-aware graphs use it for nodes that are
//! either valid (`Right`) or errors (`Left`), and for transforms that either
//! give a node or give edges directly.
use vstd::prelude::*;

verus! {

/// A value that is either a `Left` or a `Right`.
#[derive(Clone, Debug, PartialEq, Eq)]
pub enum Either<L, R> {
    Left(L),
    Right(R),
}

} // verus!
