//! Roll-number validation.
//!
//! A roll number arrives as text and is accepted exactly when it is a
//! non-empty string of decimal digits whose value is strictly positive
//! and fits an unsigned 64-bit integer; anything else is a validation
//! error.

use vstd::prelude::*;
use vstd::arithmetic::div_mod::lemma_fundamental_div_mod;
use vstd::string::StrSliceExecFns;

verus! {

/// Whether `c` is a decimal digit (`'0'` has code point 48, `'9'` 57).
pub open spec fn is_dec_digit(c: char) -> bool {
    48 <= c as u32 && c as u32 <= 57
}

/// The numeric value of the decimal digit `c`.
pub open spec fn digit_value(c: char) -> int {
    c as u32 - 48
}

/// Whether every character of `s` is a decimal digit.
pub open spec fn all_dec_digits(s: Seq<char>) -> bool {
    forall|i: int| 0 <= i < s.len() ==> is_dec_digit(#[trigger] s[i])
}

/// The value of `s` read as a decimal numeral.
pub open spec fn dec_value(s: Seq<char>) -> int
    decreases s.len(),
{
    if s.len() == 0 {
        0
    } else {
        10 * dec_value(s.drop_last()) + digit_value(s.last())
    }
}

/// Whether `s` is an acceptable roll number: a non-empty decimal numeral,
/// strictly positive, and within the range of an unsigned 64-bit integer.
pub open spec fn valid_roll(s: Seq<char>) -> bool {
    &&& s.len() > 0
    &&& all_dec_digits(s)
    &&& 0 < dec_value(s) <= u64::MAX
}

/// A numeral made of digits never has a negative value.
pub proof fn lemma_dec_value_nonneg(s: Seq<char>)
    requires
        all_dec_digits(s),
    ensures
        dec_value(s) >= 0,
    decreases s.len(),
{
    if s.len() > 0 {
        assert(forall|i: int|
            0 <= i < s.drop_last().len() ==> is_dec_digit(#[trigger] s.drop_last()[i]));
        lemma_dec_value_nonneg(s.drop_last());
    }
}

/// Reading one more digit multiplies the value so far by ten and adds
/// the digit.
pub proof fn lemma_dec_value_take_succ(s: Seq<char>, i: int)
    requires
        0 <= i < s.len(),
    ensures
        dec_value(s.take(i + 1)) == 10 * dec_value(s.take(i)) + digit_value(s[i]),
{
    assert(s.take(i + 1).drop_last() =~= s.take(i));
    assert(s.take(i + 1).last() == s[i]);
}

/// On a digit string, the value of a longer prefix is never smaller.
pub proof fn lemma_dec_value_take_grows(s: Seq<char>, i: int, j: int)
    requires
        all_dec_digits(s),
        0 <= i <= j <= s.len(),
    ensures
        dec_value(s.take(i)) <= dec_value(s.take(j)),
    decreases j - i,
{
    if i < j {
        lemma_dec_value_take_grows(s, i, j - 1);
        lemma_dec_value_take_succ(s, j - 1);
        assert(forall|k: int|
            0 <= k < s.take(j - 1).len() ==> is_dec_digit(#[trigger] s.take(j - 1)[k]));
        lemma_dec_value_nonneg(s.take(j - 1));
    }
}

/// Parses a roll number. Returns its value exactly when [`valid_roll`]
/// holds of the input, and nothing otherwise.
pub fn parse_roll_number(s: &str) -> (r: Option<u64>)
    ensures
        valid_roll(s@) ==> r == Some(dec_value(s@) as u64),
        !valid_roll(s@) ==> r is None,
{
    let n = s.unicode_len();
    if n == 0 {
        return None;
    }
    let mut value: u64 = 0;
    let mut i: usize = 0;
    while i < n
        invariant
            n == s@.len(),
            0 <= i <= n,
            all_dec_digits(s@.take(i as int)),
            value == dec_value(s@.take(i as int)),
        decreases n - i,
    {
        let c = s.get_char(i);
        let code = c as u32;
        if code < 48 || code > 57 {
            proof {
                assert(!is_dec_digit(s@[i as int]));
            }
            return None;
        }
        let d = (code - 48) as u64;
        proof {
            lemma_fundamental_div_mod(u64::MAX as int - d as int, 10);
        }
        if value > (u64::MAX - d) / 10 {
            proof {
                lemma_dec_value_take_succ(s@, i as int);
                assert(dec_value(s@.take(i as int + 1)) > u64::MAX);
                if all_dec_digits(s@) {
                    lemma_dec_value_take_grows(s@, i as int + 1, n as int);
                    assert(s@.take(n as int) =~= s@);
                }
            }
            return None;
        }
        value = value * 10 + d;
        i = i + 1;
        proof {
            lemma_dec_value_take_succ(s@, i as int - 1);
            assert(forall|k: int|
                0 <= k < s@.take(i as int).len() ==> is_dec_digit(#[trigger] s@.take(i as int)[k]));
        }
    }
    proof {
        assert(s@.take(n as int) =~= s@);
    }
    if value == 0 {
        return None;
    }
    Some(value)
}

} // verus!
