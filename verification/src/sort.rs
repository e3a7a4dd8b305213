//! Sorting of the discovered frequency list.
//!
//! The control-surface file may list frequencies in any order; the governor
//! needs them ascending so that stepping the cursor up selects a higher
//! frequency. Duplicates are kept, as repeated entries are harmless no-ops.

use vstd::prelude::*;

verus! {

broadcast use vstd::seq_lib::group_to_multiset_ensures;

/// Non-decreasing order.
pub open spec fn sorted(s: Seq<u64>) -> bool {
    forall|i: int, j: int| 0 <= i <= j < s.len() ==> s[i] <= s[j]
}

/// Inserting an element anywhere in a sequence adds exactly it to the
/// sequence's multiset.
proof fn lemma_insert_to_multiset(s: Seq<u64>, k: int, x: u64)
    requires
        0 <= k <= s.len(),
    ensures
        s.insert(k, x).to_multiset() == s.to_multiset().insert(x),
{
    let t = s.insert(k, x);
    assert(t.remove(k) =~= s);
    assert(t[k] == x);
    assert(t.to_multiset().remove(x) =~= s.to_multiset());
    assert(t.contains(x));
    assert(t.to_multiset().count(x) > 0);
    assert forall|y: u64| t.to_multiset().count(y) == s.to_multiset().insert(x).count(y) by {
        if y == x {
            assert(t.to_multiset().remove(x).count(x) == t.to_multiset().count(x) - 1);
        } else {
            assert(t.to_multiset().remove(x).count(y) == t.to_multiset().count(y));
        }
    }
    assert(t.to_multiset() =~= s.to_multiset().insert(x));
}

/// Puts `x` at its place in an already sorted vector.
fn insert_sorted(out: &mut Vec<u64>, x: u64)
    requires
        sorted(old(out)@),
    ensures
        sorted(final(out)@),
        final(out)@.to_multiset() == old(out)@.to_multiset().insert(x),
        final(out)@.len() == old(out)@.len() + 1,
{
    let mut k: usize = 0;
    while k < out.len() && out[k] <= x
        invariant
            0 <= k <= out@.len(),
            forall|m: int| 0 <= m < k ==> out@[m] <= x,
            sorted(out@),
            out@ == old(out)@,
        decreases out@.len() - k,
    {
        k += 1;
    }
    proof {
        assert(k < out@.len() ==> out@[k as int] > x);
        lemma_insert_to_multiset(out@, k as int, x);
    }
    out.insert(k, x);
    proof {
        let s = final(out)@;
        assert forall|i: int, j: int| 0 <= i <= j < s.len() implies s[i] <= s[j] by {
            assert(s[k as int] == x);
        }
    }
}

/// Sorts the frequency list ascending, keeping every entry.
pub fn sort_khz(v: Vec<u64>) -> (out: Vec<u64>)
    ensures
        sorted(out@),
        out@.to_multiset() == v@.to_multiset(),
        out@.len() == v@.len(),
        forall|j: int| 0 <= j < out@.len() ==> v@.contains(#[trigger] out@[j]),
{
    let mut out: Vec<u64> = Vec::new();
    let mut i: usize = 0;
    while i < v.len()
        invariant
            0 <= i <= v@.len(),
            sorted(out@),
            out@.to_multiset() == v@.take(i as int).to_multiset(),
            out@.len() == i,
        decreases v@.len() - i,
    {
        insert_sorted(&mut out, v[i]);
        proof {
            assert(v@.take(i as int + 1) =~= v@.take(i as int).push(v@[i as int]));
        }
        i += 1;
    }
    proof {
        assert(v@.take(v@.len() as int) =~= v@);
        assert forall|j: int| 0 <= j < out@.len() implies v@.contains(out@[j]) by {
            assert(out@.contains(out@[j]));
            assert(out@.to_multiset().count(out@[j]) > 0);
        }
    }
    out
}

} // verus!
