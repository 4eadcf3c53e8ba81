//! Deferred values: a computation that runs at most once, on first use, and
//! whose result is cached from then on.
pub mod lazy;
pub mod lazy_cell;
mod slot;
