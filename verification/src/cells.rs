//! Shared scalar control cells.
//!
//! The governor shares two single-word signals with other threads: the
//! target differential (written by an external tuner) and the currently
//! selected frequency (written by the governor, read by observers). Both are
//! held in `atomic::Atomic<i64>` cells behind `Arc` handles. A value read
//! from a cell may have been written by another thread at any time, so no
//! contract here pins the loaded value; the verified control step takes the
//! loaded value as an argument and is proved for every possible value.

use vstd::prelude::*;
use std::sync::Arc;

verus! {

#[verifier::external_type_specification]
#[verifier::external_body]
#[verifier::reject_recursive_types(T)]
pub struct ExAtomic<T>(atomic::Atomic<T>);

/// Relies on `atomic::Atomic::new`: creates a fresh cell holding `v`.
/// Nothing is stated of the cell's contents: they are shared across threads.
#[verifier::external_body]
pub(crate) fn new_cell(v: i64) -> atomic::Atomic<i64> {
    atomic::Atomic::new(v)
}

/// Relies on `atomic::Atomic::load` with `Acquire` ordering (which that
/// method accepts without panicking). The loaded value may come from any
/// thread, so nothing is stated of it.
#[verifier::external_body]
pub(crate) fn cell_load(c: &atomic::Atomic<i64>) -> i64 {
    c.load(atomic::Ordering::Acquire)
}

/// Relies on `atomic::Atomic::store` with `Release` ordering (which that
/// method accepts without panicking). Stores `v` into the shared cell.
#[verifier::external_body]
pub(crate) fn cell_store(c: &atomic::Atomic<i64>, v: i64) {
    c.store(v, atomic::Ordering::Release)
}

/// Relies on `std::sync::Arc::clone`: the returned handle refers to the same
/// shared cell as `c`.
#[verifier::external_body]
pub(crate) fn clone_handle(c: &Arc<atomic::Atomic<i64>>) -> (r: Arc<atomic::Atomic<i64>>)
    ensures
        r == *c,
{
    Arc::clone(c)
}

} // verus!
