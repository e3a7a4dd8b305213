//! A per-core CPU frequency governor: selects an operating frequency from a
//! fixed, ascending table, driven by a signed cycle-count differential, with a
//! burst counter that accelerates ramp-up under sustained upward pressure.

use vstd::prelude::*;

pub mod cells;
pub mod digits;
pub mod laws;
pub mod parse;
pub mod schedule;
pub mod sort;

verus! {

/// Largest table entry, in kHz, whose hertz equivalent (kHz * 1000) still
/// fits in an `i64`.
pub const MAX_KHZ: u64 = 9_223_372_036_854_775;

/// Why a governor could not be constructed from a frequency list.
#[derive(Clone, Copy, Debug, PartialEq, Eq, Structural)]
pub enum TableError {
    /// The list text is not a whitespace-separated sequence of decimal
    /// integers, or an entry does not fit the representable range.
    Malformed,
    /// The list parses but holds no frequency at all.
    Empty,
}

} // verus!
