//! Rendering a frequency as the decimal text written to `scaling_max_freq`.

use vstd::prelude::*;

verus! {

/// The ASCII byte of one decimal digit.
pub open spec fn digit_byte(d: int) -> u8 {
    (d + 48) as u8
}

/// The decimal digits of `n`, most significant first, as ASCII bytes.
pub open spec fn dec_bytes(n: int) -> Seq<u8>
    decreases n,
{
    if n < 10 {
        seq![digit_byte(n)]
    } else {
        dec_bytes(n / 10).push(digit_byte(n % 10))
    }
}

/// The decimal text of `n`.
pub open spec fn dec_chars(n: int) -> Seq<char> {
    dec_bytes(n).map_values(|b: u8| b as char)
}

/// Relies on `String::from_utf8`: ASCII bytes are valid UTF-8 (so the
/// conversion succeeds) and decode to one char per byte with the same value.
#[verifier::external_body]
fn ascii_string(bytes: Vec<u8>) -> (r: String)
    requires
        forall|i: int| 0 <= i < bytes@.len() ==> bytes@[i] < 128,
    ensures
        r@.len() == bytes@.len(),
        forall|i: int| 0 <= i < bytes@.len() ==> r@[i] == bytes@[i] as char,
{
    String::from_utf8(bytes).unwrap_or_default()
}

/// The decimal text of a kHz frequency value, as written to the control
/// surface's maximum-frequency file.
pub fn format_khz(khz: u64) -> (r: String)
    ensures
        r@ == dec_chars(khz as int),
{
    let mut rev: Vec<u8> = Vec::new();
    rev.push((khz % 10) as u8 + 48);
    let mut m = khz / 10;
    proof {
        assert(rev@ =~= seq![digit_byte(khz as int % 10)]);
        assert(rev@.reverse() =~= rev@);
        if khz >= 10 {
            assert(dec_bytes(khz as int) == dec_bytes(khz as int / 10).push(
                digit_byte(khz as int % 10),
            ));
            assert(dec_bytes(khz as int / 10).push(digit_byte(khz as int % 10)) =~= dec_bytes(
                khz as int / 10,
            ) + rev@.reverse());
        } else {
            assert(dec_bytes(khz as int) =~= rev@.reverse());
        }
    }
    while m > 0
        invariant
            rev@.len() >= 1,
            forall|k: int| 0 <= k < rev@.len() ==> 48 <= #[trigger] rev@[k] <= 57,
            m > 0 ==> dec_bytes(khz as int) == dec_bytes(m as int) + rev@.reverse(),
            m == 0 ==> dec_bytes(khz as int) == rev@.reverse(),
        decreases m,
    {
        let ghost prev = rev@;
        let d: u8 = (m % 10) as u8 + 48;
        rev.push(d);
        proof {
            assert(rev@ =~= prev.push(d));
            assert(prev.push(d).reverse() =~= seq![d] + prev.reverse());
            if m >= 10 {
                assert(dec_bytes(m as int) == dec_bytes(m as int / 10).push(d));
                assert(dec_bytes(m as int / 10).push(d) + prev.reverse() =~= dec_bytes(
                    m as int / 10,
                ) + (seq![d] + prev.reverse()));
            } else {
                assert(dec_bytes(m as int) =~= seq![d]);
                assert(seq![d] + prev.reverse() =~= rev@.reverse());
            }
        }
        m = m / 10;
    }
    let len = rev.len();
    let mut bytes: Vec<u8> = Vec::new();
    let mut i: usize = len;
    while i > 0
        invariant
            len == rev@.len(),
            0 <= i <= len,
            forall|k: int| 0 <= k < rev@.len() ==> 48 <= #[trigger] rev@[k] <= 57,
            bytes@ == rev@.reverse().take(len - i),
        decreases i,
    {
        let ghost before = bytes@;
        bytes.push(rev[i - 1]);
        proof {
            assert(rev@.reverse()[len - i] == rev@[i - 1]);
            assert(rev@.reverse().take(len - i + 1) =~= before.push(rev@[i - 1 as int]));
        }
        i -= 1;
    }
    proof {
        assert(bytes@ =~= rev@.reverse());
        assert(forall|k: int| 0 <= k < bytes@.len() ==> 48 <= #[trigger] bytes@[k] <= 57);
    }
    let r = ascii_string(bytes);
    proof {
        assert(r@ =~= dec_chars(khz as int));
    }
    r
}

} // verus!
