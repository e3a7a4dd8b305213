//! The governor's control loop.
//!
//! A `Schedule` owns an ascending frequency table, a cursor into it, and a
//! burst counter. Each tick consumes one measured cycle differential: it
//! publishes the currently selected frequency, reads the target differential
//! the external tuner asked for, clamps it against the published frequency,
//! and steps the cursor down, up (accelerated by the burst counter) or not at
//! all. The caller submits any returned write request to the hardware control
//! surface; actuation is best effort and never blocks the loop.

use vstd::prelude::*;
use std::sync::Arc;
use crate::cells::{new_cell, cell_load, cell_store, clone_handle};
use crate::sort::{sorted, sort_khz};
use crate::parse::{parse_spec, parse_khz_list};
use crate::{TableError, MAX_KHZ};

verus! {

/// Seed of the target-differential cell: 200 MHz of headroom, in hertz.
pub const TARGET_SEED_HZ: i64 = 200_000_000;

/// A table entry in hertz (entries are stored in kHz).
pub open spec fn hz_of(khz: u64) -> int {
    khz * 1000
}

/// The target differential, clamped to the currently published frequency.
pub open spec fn clamp_target(target: int, cur_hz: int) -> int {
    if target <= cur_hz { target } else { cur_hz }
}

/// One saturating step down.
pub open spec fn down_pos(pos: int) -> int {
    if pos == 0 { 0 } else { pos - 1 }
}

/// An upward step of `1 + burst`, capped at the table's top index.
pub open spec fn up_pos(pos: int, burst: int, top: int) -> int {
    if pos + 1 + burst <= top { pos + 1 + burst } else { top }
}

/// The burst counter after an upward step: one more, capped at `burst_max`.
pub open spec fn bumped_burst(burst: int, burst_max: int) -> int {
    if burst + 1 <= burst_max { burst + 1 } else { burst_max }
}

/// What one decision of the control step did.
#[derive(Clone, Copy, Debug, PartialEq, Eq)]
pub enum StepResult {
    /// The clamped target differential was negative: the upstream producer
    /// broke its contract. The step changed nothing.
    Fault,
    /// Target and measured differential agree: hold position, no write.
    Held,
    /// The cursor moved (or saturated); request a write of this kHz value.
    Wrote(u64),
}

/// What one tick of the governor did.
#[derive(Clone, Copy, Debug, PartialEq, Eq)]
pub enum RunOutcome {
    /// The measurement was not yet valid: nothing was touched.
    Skipped,
    /// The clamped target differential was negative (upstream contract
    /// violation); the caller should treat this as a fatal programming error.
    Fault { published_khz: u64 },
    /// A full step: the frequency published before the decision, and the
    /// write request it produced, if any.
    Stepped { published_khz: u64, write_khz: Option<u64> },
}

pub struct Schedule {
    /// Headroom the external tuner wants, in hertz; written by the tuner.
    pub target_diff: Arc<atomic::Atomic<i64>>,
    /// Frequency ceiling being enforced, in hertz; written by the governor.
    pub cur_cycles: Arc<atomic::Atomic<i64>>,
    /// Consecutive upward decisions so far, capped at `burst_max`.
    pub burst: usize,
    pub burst_max: usize,
    /// Ascending, non-empty table of selectable frequencies, in kHz.
    pub table: Vec<u64>,
    /// Index of the frequency currently requested of the hardware.
    pub pos: usize,
}

/// Exact relation between the governor before and after one decision on
/// measured differential `diff` and raw target differential `target`.
pub open spec fn step_post(
    pre: Schedule,
    post: Schedule,
    diff: int,
    target: int,
    r: StepResult,
) -> bool {
    let top = pre.table@.len() - 1;
    let cur = hz_of(pre.table@[pre.pos as int]);
    let t = clamp_target(target, cur);
    &&& post.table@ == pre.table@
    &&& post.burst_max == pre.burst_max
    &&& post.target_diff == pre.target_diff
    &&& post.cur_cycles == pre.cur_cycles
    &&& (t < 0 ==> post.pos == pre.pos && post.burst == pre.burst && r == StepResult::Fault)
    &&& (0 <= t < diff ==> post.pos == down_pos(pre.pos as int) && post.burst == 0 && r
        == StepResult::Wrote(pre.table@[down_pos(pre.pos as int)]))
    &&& (t > diff ==> post.pos == up_pos(pre.pos as int, pre.burst as int, top) && post.burst
        == bumped_burst(pre.burst as int, pre.burst_max as int) && r == StepResult::Wrote(
        pre.table@[up_pos(pre.pos as int, pre.burst as int, top)],
    ))
    &&& (t == diff ==> post.pos == pre.pos && post.burst == 0 && r == StepResult::Held)
}

/// Maps a tick's outcome back to the decision inside it.
pub open spec fn outcome_step(o: RunOutcome) -> StepResult {
    match o {
        RunOutcome::Skipped => StepResult::Held,
        RunOutcome::Fault { .. } => StepResult::Fault,
        RunOutcome::Stepped { write_khz: None, .. } => StepResult::Held,
        RunOutcome::Stepped { write_khz: Some(k), .. } => StepResult::Wrote(k),
    }
}

impl Schedule {
    /// The governor's invariant: a non-empty ascending table whose entries
    /// have hertz equivalents, the cursor inside it, the burst counter under
    /// its cap.
    pub open spec fn wf(&self) -> bool {
        &&& self.table@.len() > 0
        &&& sorted(self.table@)
        &&& (forall|i: int| 0 <= i < self.table@.len() ==> self.table@[i] <= MAX_KHZ)
        &&& self.pos < self.table@.len()
        &&& self.burst <= self.burst_max
    }

    /// Builds a governor from the text of `scaling_available_frequencies` and
    /// the configured burst cap. Returns it with shared handles to the
    /// target-differential cell (for the tuner) and the current-frequency
    /// cell (for observers). Construction fails, and no governor exists, iff
    /// the list is malformed or empty.
    pub fn new(freq_list: &[u8], burst_max: usize) -> (r: Result<
        (Schedule, Arc<atomic::Atomic<i64>>, Arc<atomic::Atomic<i64>>),
        TableError,
    >)
        ensures
            r is Ok <==> (parse_spec(freq_list@) matches Some(vals) && vals.len() > 0),
            r matches Ok((s, target, cur)) ==> {
                let vals = parse_spec(freq_list@)->Some_0;
                &&& s.wf()
                &&& s.table@.to_multiset() == vals.to_multiset()
                &&& s.table@.len() == vals.len()
                &&& s.pos as int == s.table@.len() - 1
                &&& s.burst == 0
                &&& s.burst_max == burst_max
                &&& target == s.target_diff
                &&& cur == s.cur_cycles
            },
            r matches Err(e) ==> {
                &&& (e == TableError::Malformed <==> parse_spec(freq_list@) is None)
                &&& (e == TableError::Empty <==> parse_spec(freq_list@) == Some(
                    Seq::<u64>::empty(),
                ))
            },
    {
        match parse_khz_list(freq_list) {
            None => Err(TableError::Malformed),
            Some(vals) => {
                if vals.len() == 0 {
                    proof {
                        assert(parse_spec(freq_list@)->Some_0 =~= Seq::<u64>::empty());
                    }
                    Err(TableError::Empty)
                } else {
                    let table = sort_khz(vals);
                    let top = table.len() - 1;
                    let max_khz = table[top];
                    let cur_hz: u64 = max_khz * 1000;
                    let target_diff = Arc::new(new_cell(TARGET_SEED_HZ));
                    let cur_cycles = Arc::new(new_cell(cur_hz as i64));
                    let target_handle = clone_handle(&target_diff);
                    let cur_handle = clone_handle(&cur_cycles);
                    let s = Schedule {
                        target_diff,
                        cur_cycles,
                        burst: 0,
                        burst_max,
                        table,
                        pos: top,
                    };
                    Ok((s, target_handle, cur_handle))
                }
            },
        }
    }

    /// One decision on a valid measurement `diff` and a raw target
    /// differential `target` (as loaded from the shared cell): clamp the
    /// target to the currently selected frequency, then step the cursor down
    /// by one, up by `1 + burst`, or not at all. Verified for every possible
    /// `target`, since any thread may have written that cell.
    pub fn step(&mut self, diff: i64, target: i64) -> (r: StepResult)
        requires
            old(self).wf(),
            diff >= 0,
        ensures
            final(self).wf(),
            step_post(*old(self), *final(self), diff as int, target as int, r),
    {
        let cur_khz = self.table[self.pos];
        let cur_hz_u: u64 = cur_khz * 1000;
        let cur_hz: i64 = cur_hz_u as i64;
        let t: i64 = if target <= cur_hz { target } else { cur_hz };
        if t < 0 {
            StepResult::Fault
        } else if t < diff {
            self.pos = if self.pos == 0 { 0 } else { self.pos - 1 };
            self.burst = 0;
            StepResult::Wrote(self.table[self.pos])
        } else if t > diff {
            let top = self.table.len() - 1;
            let room = top - self.pos;
            let adv = if self.burst >= room { room } else { self.burst + 1 };
            self.pos = self.pos + adv;
            self.burst = if self.burst >= self.burst_max { self.burst_max } else {
                self.burst + 1
            };
            StepResult::Wrote(self.table[self.pos])
        } else {
            self.burst = 0;
            StepResult::Held
        }
    }

    /// One tick. A negative `diff` means the measurement is not yet valid:
    /// nothing happens at all. Otherwise the pre-step frequency is published
    /// to the current-frequency cell, the target differential is read from
    /// its cell, and one `step` decides. The returned outcome carries the
    /// published value and the write request, which the caller submits to the
    /// control surface best-effort.
    pub fn run(&mut self, diff: i64) -> (o: RunOutcome)
        requires
            old(self).wf(),
        ensures
            final(self).wf(),
            final(self).table@ == old(self).table@,
            final(self).burst_max == old(self).burst_max,
            final(self).target_diff == old(self).target_diff,
            final(self).cur_cycles == old(self).cur_cycles,
            diff < 0 <==> o == RunOutcome::Skipped,
            diff < 0 ==> *final(self) == *old(self),
            o matches RunOutcome::Fault { published_khz }
                ==> published_khz == old(self).table@[old(self).pos as int]
                    && final(self).pos == old(self).pos
                    && final(self).burst == old(self).burst,
            o matches RunOutcome::Stepped { published_khz, .. }
                ==> published_khz == old(self).table@[old(self).pos as int],
            o matches RunOutcome::Stepped { write_khz: Some(k), .. }
                ==> k == final(self).table@[final(self).pos as int],
            o matches RunOutcome::Stepped { write_khz: None, .. }
                ==> final(self).pos == old(self).pos && final(self).burst == 0,
            diff >= 0 ==> exists|t: int|
                step_post(*old(self), *final(self), diff as int, t, outcome_step(o)),
    {
        if diff < 0 {
            return RunOutcome::Skipped;
        }
        let khz = self.table[self.pos];
        let hz_u: u64 = khz * 1000;
        let hz: i64 = hz_u as i64;
        cell_store(&self.cur_cycles, hz);
        let target = cell_load(&self.target_diff);
        let r = self.step(diff, target);
        proof {
            assert(step_post(*old(self), *self, diff as int, target as int, r));
        }
        match r {
            StepResult::Fault => RunOutcome::Fault { published_khz: khz },
            StepResult::Held => RunOutcome::Stepped { published_khz: khz, write_khz: None },
            StepResult::Wrote(k) => RunOutcome::Stepped {
                published_khz: khz,
                write_khz: Some(k),
            },
        }
    }

    /// The fail-safe write request: always the table's maximum frequency,
    /// whatever the cursor holds. Submitted by the caller when the governor
    /// is disabled or torn down, so the hardware is never left throttled.
    pub fn reset(&self) -> (khz: u64)
        requires
            self.wf(),
        ensures
            khz == self.table@.last(),
            forall|i: int| 0 <= i < self.table@.len() ==> self.table@[i] <= khz,
    {
        self.table[self.table.len() - 1]
    }
}

/// How many workers the actuation write pool gets: half the units sharing the
/// control surface, but at least two.
pub fn pool_workers(cpu_count: usize) -> (n: usize)
    ensures
        n as int == if cpu_count as int / 2 >= 2 { cpu_count as int / 2 } else { 2int },
{
    if cpu_count / 2 >= 2 {
        cpu_count / 2
    } else {
        2
    }
}

} // verus!
