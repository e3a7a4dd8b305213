//! Laws of the control step, proved once, for all inputs.

use vstd::prelude::*;
use crate::schedule::{Schedule, StepResult, step_post, clamp_target, hz_of, down_pos, up_pos};

verus! {

/// Ramp law: across a chain of `k` consecutive control steps, every one of
/// them an upward decision (clamped target strictly above the measured
/// differential), the burst counter climbs by one per step until it reaches
/// `burst_max`, then holds there; the table and the cap never change. The
/// per-step cursor advance of `1 + burst`, capped at the table top, is stated
/// by `step_post` itself.
pub proof fn lemma_ramp_law(
    states: Seq<Schedule>,
    diffs: Seq<int>,
    targets: Seq<int>,
    rs: Seq<StepResult>,
    k: nat,
)
    requires
        states.len() == k + 1,
        diffs.len() == k,
        targets.len() == k,
        rs.len() == k,
        states[0].wf(),
        forall|i: int| 0 <= i < k ==> #[trigger] diffs[i] >= 0,
        forall|i: int|
            0 <= i < k ==> clamp_target(
                #[trigger] targets[i],
                hz_of(states[i].table@[states[i].pos as int]),
            ) > diffs[i],
        forall|i: int|
            0 <= i < k ==> #[trigger] step_post(states[i], states[i + 1], diffs[i], targets[i], rs[i]),
    ensures
        states[k as int].burst as int == if states[0].burst + k <= states[0].burst_max {
            states[0].burst + k
        } else {
            states[0].burst_max as int
        },
        states[k as int].burst_max == states[0].burst_max,
        states[k as int].table@ == states[0].table@,
    decreases k,
{
    if k > 0 {
        let k1 = (k - 1) as nat;
        lemma_ramp_law(
            states.take(k as int),
            diffs.take(k1 as int),
            targets.take(k1 as int),
            rs.take(k1 as int),
            k1,
        );
        assert(step_post(
            states[k - 1],
            states[k as int],
            diffs[k - 1],
            targets[k - 1],
            rs[k - 1],
        ));
    }
}

/// Saturation law: wherever the cursor stands within the table, one step in
/// either direction leaves it within the table — a downward step saturates at
/// the bottom, an upward step of any burst size is capped at the top.
pub proof fn lemma_cursor_saturates(pos: int, burst: int, top: int)
    requires
        0 <= pos <= top,
        0 <= burst,
    ensures
        0 <= down_pos(pos) <= top,
        0 <= up_pos(pos, burst, top) <= top,
        down_pos(pos) >= pos - 1,
        up_pos(pos, burst, top) >= pos,
{
}

} // verus!
