//! Amounts as a host hands them over: unsigned integers written as
//! big-endian digits to the base 256, of any length.

use vstd::prelude::*;

verus! {

/// The number that the digits `s` write, most significant digit first.
pub open spec fn be_value(s: Seq<u8>) -> nat
    decreases s.len(),
{
    if s.len() == 0 {
        0
    } else {
        be_value(s.drop_last()) * 256 + s.last() as nat
    }
}

/// A number is at least what any prefix of its digits writes.
pub proof fn lemma_prefix_is_no_larger(s: Seq<u8>, n: int)
    requires
        0 <= n <= s.len(),
    ensures
        be_value(s.take(n)) <= be_value(s),
    decreases s.len() - n,
{
    if n < s.len() {
        assert(s.take(n + 1).drop_last() =~= s.take(n));
        lemma_prefix_is_no_larger(s, n + 1);
    } else {
        assert(s.take(n) =~= s);
    }
}

/// Reads an amount from its digits. Leading zeros are allowed. A number
/// that is too large for an amount gives `None`.
pub fn amount_from_digits(digits: &[u8]) -> (r: Option<u128>)
    ensures
        r == (if be_value(digits@) <= u128::MAX {
            Some(be_value(digits@) as u128)
        } else {
            None
        }),
{
    let mut acc: u128 = 0;
    let mut i: usize = 0;
    while i < digits.len()
        invariant
            i <= digits@.len(),
            acc == be_value(digits@.take(i as int)),
        decreases digits@.len() - i,
    {
        let digit: u128 = digits[i] as u128;
        proof {
            assert(digits@.take(i + 1).drop_last() =~= digits@.take(i as int));
            assert(be_value(digits@.take(i + 1)) == acc * 256 + digit);
        }
        if acc > (u128::MAX - digit) / 256 {
            proof {
                lemma_prefix_is_no_larger(digits@, i + 1);
            }
            return None;
        }
        acc = acc * 256 + digit;
        i += 1;
    }
    proof {
        assert(digits@.take(i as int) =~= digits@);
    }
    Some(acc)
}

} // verus!
