//! The Local domain: its executor binding and its fold constructors.
pub use crate::fold::{fold, simple_fold, Fold};

use vstd::prelude::*;
use crate::exec::Exec;

verus! {

/// Binds the executor strategy `s` to the Local domain.
pub fn exec<S>(s: S) -> (res: Exec<super::Local, S>)
    ensures res.strategy() == s,
{
    Exec::new(s)
}

} // verus!
