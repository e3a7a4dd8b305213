//! Reading the control-surface lists.
//!
//! `scaling_available_frequencies` is a whitespace-separated list of decimal
//! kHz values; `affected_cpus` is a whitespace-separated list of unit ids of
//! which only the count matters. Anything else in the frequency list is a
//! fatal construction error: a governor cannot run without its table.

use vstd::prelude::*;
use crate::MAX_KHZ;

verus! {

/// ASCII whitespace: space, tab, line feed, vertical tab, form feed,
/// carriage return.
pub open spec fn is_ws(b: u8) -> bool {
    b == 32 || b == 9 || b == 10 || b == 11 || b == 12 || b == 13
}

pub open spec fn is_digit(b: u8) -> bool {
    48 <= b <= 57
}

/// Index just past the digit run starting at `i`.
pub open spec fn run_end(s: Seq<u8>, i: int) -> int
    decreases s.len() - i,
{
    if i < 0 || i >= s.len() || !is_digit(s[i]) {
        i
    } else {
        run_end(s, i + 1)
    }
}

/// Decimal value of the digits `s[i..j]`.
pub open spec fn run_val(s: Seq<u8>, i: int, j: int) -> int
    decreases j - i,
{
    if j <= i {
        0
    } else {
        run_val(s, i, j - 1) * 10 + s[j - 1] - 48
    }
}

pub proof fn lemma_run_end(s: Seq<u8>, i: int)
    requires
        0 <= i <= s.len(),
    ensures
        i <= run_end(s, i) <= s.len(),
        forall|k: int| i <= k < run_end(s, i) ==> is_digit(s[k]),
        run_end(s, i) < s.len() ==> !is_digit(s[run_end(s, i)]),
    decreases s.len() - i,
{
    if i < s.len() && is_digit(s[i]) {
        lemma_run_end(s, i + 1);
    }
}

/// `run_end` is exactly the first non-digit position at or after `a`.
pub proof fn lemma_run_end_is(s: Seq<u8>, a: int, b: int)
    requires
        0 <= a <= b <= s.len(),
        forall|k: int| a <= k < b ==> is_digit(s[k]),
        b < s.len() ==> !is_digit(s[b]),
    ensures
        run_end(s, a) == b,
    decreases b - a,
{
    if a < b {
        lemma_run_end_is(s, a + 1, b);
    }
}

pub proof fn lemma_run_val_nonneg(s: Seq<u8>, i: int, j: int)
    requires
        i <= j,
        forall|k: int| i <= k < j ==> is_digit(s[k]),
    ensures
        run_val(s, i, j) >= 0,
    decreases j - i,
{
    if i < j {
        lemma_run_val_nonneg(s, i, j - 1);
    }
}

/// Appending digits never shrinks a run's value.
pub proof fn lemma_run_val_mono(s: Seq<u8>, i: int, a: int, b: int)
    requires
        i <= a <= b,
        forall|k: int| i <= k < b ==> is_digit(s[k]),
    ensures
        run_val(s, i, a) <= run_val(s, i, b),
    decreases b - a,
{
    if a < b {
        lemma_run_val_mono(s, i, a, b - 1);
        lemma_run_val_nonneg(s, i, b - 1);
    }
}

/// The parse of `s` from position `i` on: `None` on any byte that is neither
/// an ASCII digit nor whitespace, or on a value too large for the table;
/// otherwise the values of the digit runs, in order.
pub open spec fn ps(s: Seq<u8>, i: int) -> Option<Seq<u64>>
    decreases s.len() - i,
        when 0 <= i <= s.len()
        via ps_dec
{
    if i >= s.len() {
        Some(Seq::empty())
    } else if is_ws(s[i]) {
        ps(s, i + 1)
    } else if is_digit(s[i]) {
        let j = run_end(s, i);
        let v = run_val(s, i, j);
        if v > MAX_KHZ {
            None
        } else {
            match ps(s, j) {
                None => None,
                Some(rest) => Some(seq![v as u64] + rest),
            }
        }
    } else {
        None
    }
}

#[via_fn]
proof fn ps_dec(s: Seq<u8>, i: int) {
    lemma_run_end(s, i);
}

/// What the whole frequency list parses to.
pub open spec fn parse_spec(s: Seq<u8>) -> Option<Seq<u64>> {
    ps(s, 0)
}

/// Glues an already-parsed prefix onto the parse of the rest.
pub open spec fn glue(prefix: Seq<u64>, rest: Option<Seq<u64>>) -> Option<Seq<u64>> {
    match rest {
        None => None,
        Some(t) => Some(prefix + t),
    }
}

fn is_ws_exec(b: u8) -> (r: bool)
    ensures
        r == is_ws(b),
{
    b == 32 || b == 9 || b == 10 || b == 11 || b == 12 || b == 13
}

/// Parses the whitespace-separated decimal kHz values of `s`, in order.
/// Fails exactly when the text holds any other byte or a value above
/// `MAX_KHZ`.
pub fn parse_khz_list(s: &[u8]) -> (r: Option<Vec<u64>>)
    ensures
        (r matches Some(v) ==> parse_spec(s@) == Some(v@) && (forall|k: int|
            0 <= k < v@.len() ==> v@[k] <= MAX_KHZ)),
        r is None ==> parse_spec(s@) is None,
{
    let n = s.len();
    let mut i: usize = 0;
    let mut out: Vec<u64> = Vec::new();
    while i < n
        invariant
            n == s@.len(),
            0 <= i <= n,
            forall|k: int| 0 <= k < out@.len() ==> out@[k] <= MAX_KHZ,
            ps(s@, 0) == glue(out@, ps(s@, i as int)),
        decreases n - i,
    {
        let b = s[i];
        if is_ws_exec(b) {
            proof {
                assert(ps(s@, i as int) == ps(s@, i as int + 1));
            }
            i += 1;
        } else if 48 <= b && b <= 57 {
            let ghost start = i as int;
            let mut v: u64 = 0;
            while i < n && 48 <= s[i] && s[i] <= 57
                invariant
                    n == s@.len(),
                    0 <= start <= i as int <= n as int,
                    start < n as int,
                    is_digit(s@[start]),
                    forall|k: int| start <= k < i as int ==> is_digit(s@[k]),
                    v <= MAX_KHZ,
                    v as int == run_val(s@, start, i as int),
                    forall|k: int| 0 <= k < out@.len() ==> out@[k] <= MAX_KHZ,
                    ps(s@, 0) == glue(out@, ps(s@, start)),
                decreases n - i,
            {
                let d = s[i] - 48;
                if v > MAX_KHZ / 10 || (v == MAX_KHZ / 10 && d > 5) {
                    proof {
                        lemma_run_end(s@, start);
                        let e = run_end(s@, start);
                        if e <= i as int {
                            assert(is_digit(s@[e]));
                            assert(false);
                        }
                        lemma_run_val_mono(s@, start, i as int + 1, e);
                        assert(run_val(s@, start, i as int + 1) == v * 10 + d);
                        assert(run_val(s@, start, e) > MAX_KHZ);
                        assert(ps(s@, start) is None);
                    }
                    return None;
                }
                v = v * 10 + (d as u64);
                i += 1;
            }
            proof {
                lemma_run_end_is(s@, start, i as int);
                assert(ps(s@, start) == glue(seq![v], ps(s@, i as int)));
            }
            out.push(v);
            proof {
                let ghost prefix = out@.subrange(0, out@.len() - 1);
                assert(out@ =~= prefix.push(v));
                if ps(s@, i as int) is Some {
                    let rest = ps(s@, i as int)->Some_0;
                    assert(prefix + (seq![v] + rest) =~= out@ + rest);
                }
            }
        } else {
            proof {
                assert(ps(s@, i as int) is None);
            }
            return None;
        }
    }
    proof {
        assert(ps(s@, n as int) == Some(Seq::<u64>::empty()));
        assert(out@ + Seq::<u64>::empty() =~= out@);
    }
    Some(out)
}

/// Index just past the non-whitespace run starting at `i`.
pub open spec fn tok_end(s: Seq<u8>, i: int) -> int
    decreases s.len() - i,
{
    if i < 0 || i >= s.len() || is_ws(s[i]) {
        i
    } else {
        tok_end(s, i + 1)
    }
}

pub proof fn lemma_tok_end(s: Seq<u8>, i: int)
    requires
        0 <= i <= s.len(),
    ensures
        i <= tok_end(s, i) <= s.len(),
        forall|k: int| i <= k < tok_end(s, i) ==> !is_ws(s[k]),
        tok_end(s, i) < s.len() ==> is_ws(s[tok_end(s, i)]),
    decreases s.len() - i,
{
    if i < s.len() && !is_ws(s[i]) {
        lemma_tok_end(s, i + 1);
    }
}

pub proof fn lemma_tok_end_is(s: Seq<u8>, a: int, b: int)
    requires
        0 <= a <= b <= s.len(),
        forall|k: int| a <= k < b ==> !is_ws(s[k]),
        b < s.len() ==> is_ws(s[b]),
    ensures
        tok_end(s, a) == b,
    decreases b - a,
{
    if a < b {
        lemma_tok_end_is(s, a + 1, b);
    }
}

/// How many whitespace-separated fields `s` holds, from position `i` on.
pub open spec fn fc(s: Seq<u8>, i: int) -> int
    decreases s.len() - i,
        when 0 <= i <= s.len()
        via fc_dec
{
    if i >= s.len() {
        0
    } else if is_ws(s[i]) {
        fc(s, i + 1)
    } else {
        1 + fc(s, tok_end(s, i))
    }
}

#[via_fn]
proof fn fc_dec(s: Seq<u8>, i: int) {
    lemma_tok_end(s, i);
}

pub open spec fn field_count(s: Seq<u8>) -> int {
    fc(s, 0)
}

/// Counts the whitespace-separated fields of `s` (for `affected_cpus`, where
/// only how many units share the control surface matters).
pub fn count_fields(s: &[u8]) -> (n: usize)
    ensures
        n as int == field_count(s@),
{
    let len = s.len();
    let mut i: usize = 0;
    let mut cnt: usize = 0;
    while i < len
        invariant
            len == s@.len(),
            0 <= i <= len,
            cnt as int <= i as int,
            fc(s@, 0) == cnt as int + fc(s@, i as int),
        decreases len - i,
    {
        if is_ws_exec(s[i]) {
            proof {
                assert(fc(s@, i as int) == fc(s@, i as int + 1));
            }
            i += 1;
        } else {
            let ghost start = i as int;
            while i < len && !is_ws_exec(s[i])
                invariant
                    len == s@.len(),
                    0 <= start <= i as int <= len as int,
                    start < len as int,
                    !is_ws(s@[start]),
                    cnt as int <= start,
                    forall|k: int| start <= k < i as int ==> !is_ws(s@[k]),
                    fc(s@, 0) == cnt as int + fc(s@, start),
                decreases len - i,
            {
                i += 1;
            }
            proof {
                lemma_tok_end_is(s@, start, i as int);
                assert(fc(s@, start) == 1 + fc(s@, i as int));
            }
            cnt += 1;
        }
    }
    proof {
        assert(fc(s@, len as int) == 0);
    }
    cnt
}

} // verus!
