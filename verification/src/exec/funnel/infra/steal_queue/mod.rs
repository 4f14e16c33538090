//! The steal queue's storage: slots with a hand-off state, grouped in lazily
//! allocated segments.
pub mod segment;
pub mod slot;
