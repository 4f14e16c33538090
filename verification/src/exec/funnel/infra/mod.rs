//! Storage for the funnel executor: slabs, arenas and the work deque.
pub mod arena;
pub mod cont_arena;
pub mod deque;
pub mod segmented_slab;
pub mod steal_queue;
