//! Type coercion: turning a raw environment string into the unsigned
//! integer a numeric field declares. A raw value coerces exactly when it is
//! a non-empty string of decimal digits whose value fits the field's type.

use vstd::prelude::*;
use vstd::arithmetic::div_mod::lemma_fundamental_div_mod;

verus! {

/// Whether `c` is a decimal digit.
pub open spec fn is_dec_digit(c: char) -> bool {
    '0' <= c && c <= '9'
}

/// The numeric value of the decimal digit `c`.
pub open spec fn digit_value(c: char) -> nat {
    (c as int - '0' as int) as nat
}

/// Whether every character of `s` is a decimal digit.
pub open spec fn all_dec_digits(s: Seq<char>) -> bool {
    forall|i: int| 0 <= i < s.len() ==> is_dec_digit(s[i])
}

/// Whether `s` is a well-formed decimal numeral: non-empty, digits only.
pub open spec fn is_dec(s: Seq<char>) -> bool {
    s.len() > 0 && all_dec_digits(s)
}

/// The numeric value of the digit string `s`, most significant digit first.
pub open spec fn dec_value(s: Seq<char>) -> nat
    decreases s.len(),
{
    if s.len() == 0 {
        0
    } else {
        dec_value(s.drop_last()) * 10 + digit_value(s.last())
    }
}

/// Extending a digit string can only grow its value.
proof fn lemma_dec_value_prefix(s: Seq<char>, i: int)
    requires
        0 <= i <= s.len(),
    ensures
        dec_value(s) >= dec_value(s.subrange(0, i)),
    decreases s.len() - i,
{
    if i == s.len() {
        assert(s.subrange(0, i) =~= s);
    } else {
        assert(s.subrange(0, i + 1).drop_last() =~= s.subrange(0, i));
        assert(s.subrange(0, i + 1).last() == s[i]);
        lemma_dec_value_prefix(s, i + 1);
    }
}

/// The value of the decimal digit `c`, or nothing when `c` is no digit.
fn digit_of(c: char) -> (r: Option<u64>)
    ensures
        match r {
            Some(d) => is_dec_digit(c) && d == digit_value(c),
            None => !is_dec_digit(c),
        },
{
    match c {
        '0' => Some(0),
        '1' => Some(1),
        '2' => Some(2),
        '3' => Some(3),
        '4' => Some(4),
        '5' => Some(5),
        '6' => Some(6),
        '7' => Some(7),
        '8' => Some(8),
        '9' => Some(9),
        _ => None,
    }
}

/// Parses `s` as a decimal numeral of value at most `max`. Returns the value
/// exactly when `s` is non-empty, all digits, and its value is within the
/// bound; fails otherwise.
pub fn parse_bounded(s: &str, max: u64) -> (r: Option<u64>)
    ensures
        match r {
            Some(v) => is_dec(s@) && v as nat == dec_value(s@) && v <= max,
            None => !(is_dec(s@) && dec_value(s@) <= max),
        },
{
    let n = s.unicode_len();
    if n == 0 {
        return None;
    }
    let mut acc: u64 = 0;
    let mut i: usize = 0;
    while i < n
        invariant
            n == s@.len(),
            i <= n,
            all_dec_digits(s@.subrange(0, i as int)),
            acc as nat == dec_value(s@.subrange(0, i as int)),
            acc <= max,
        decreases n - i,
    {
        let c = s.get_char(i);
        match digit_of(c) {
            None => {
                assert(!all_dec_digits(s@)) by {
                    assert(s@[i as int] == c);
                }
                return None;
            },
            Some(d) => {
                proof {
                    assert(s@.subrange(0, i + 1).drop_last() =~= s@.subrange(0, i as int));
                    assert(s@.subrange(0, i + 1).last() == s@[i as int]);
                    lemma_fundamental_div_mod(max as int, 10);
                }
                if acc > max / 10 || (acc == max / 10 && d > max % 10) {
                    proof {
                        assert(dec_value(s@.subrange(0, i + 1)) > max);
                        lemma_dec_value_prefix(s@, i + 1);
                    }
                    return None;
                }
                assert(acc * 10 + d <= max);
                acc = acc * 10 + d;
            },
        }
        i = i + 1;
    }
    proof {
        assert(s@.subrange(0, n as int) =~= s@);
    }
    Some(acc)
}

/// Coerces `s` to a 16-bit unsigned integer, as a port field requires.
pub fn parse_u16(s: &str) -> (r: Option<u16>)
    ensures
        match r {
            Some(v) => is_dec(s@) && v as nat == dec_value(s@),
            None => !(is_dec(s@) && dec_value(s@) <= u16::MAX),
        },
{
    match parse_bounded(s, 65535) {
        Some(v) => Some(v as u16),
        None => None,
    }
}

/// Coerces `s` to a 32-bit unsigned integer, as the pool-bound fields
/// require.
pub fn parse_u32(s: &str) -> (r: Option<u32>)
    ensures
        match r {
            Some(v) => is_dec(s@) && v as nat == dec_value(s@),
            None => !(is_dec(s@) && dec_value(s@) <= u32::MAX),
        },
{
    match parse_bounded(s, 0xFFFF_FFFF) {
        Some(v) => Some(v as u32),
        None => None,
    }
}

/// Coerces `s` to a pointer-sized unsigned integer, as the indexer fields
/// require.
pub fn parse_usize(s: &str) -> (r: Option<usize>)
    ensures
        match r {
            Some(v) => is_dec(s@) && v as nat == dec_value(s@),
            None => !(is_dec(s@) && dec_value(s@) <= usize::MAX),
        },
{
    match parse_bounded(s, usize::MAX as u64) {
        Some(v) => Some(v as usize),
        None => None,
    }
}

} // verus!
