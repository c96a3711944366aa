//! Decimal integer parsing with the acceptance rules of `u64::from_str` and
//! `i64::from_str`: an optional sign, then one or more ASCII digits, in range.
use vstd::prelude::*;

use crate::text::{decimal, digit_char};

verus! {

/// Whether `c` is an ASCII decimal digit.
pub open spec fn is_digit(c: char) -> bool {
    '0' <= c && c <= '9'
}

/// The value of a digit character.
pub open spec fn digit_value(c: char) -> nat {
    ((c as int) - ('0' as int)) as nat
}

/// The value of a run of decimal digits, most significant first.
pub open spec fn digits_value(d: Seq<char>) -> nat
    decreases d.len(),
{
    if d.len() == 0 {
        0
    } else {
        digits_value(d.drop_last()) * 10 + digit_value(d.last())
    }
}

/// Whether `d` is a non-empty run of ASCII digits.
pub open spec fn all_digits(d: Seq<char>) -> bool {
    d.len() > 0 && forall|i: int| 0 <= i < d.len() ==> is_digit(#[trigger] d[i])
}

/// The digits of `s` after an optional leading `+`.
pub open spec fn unsigned_digits(s: Seq<char>) -> Seq<char> {
    if s.len() > 0 && s[0] == '+' {
        s.drop_first()
    } else {
        s
    }
}

/// What `u64::from_str` accepts: an optional `+`, then one or more ASCII
/// digits whose value fits in 64 bits.
pub open spec fn parse_u64_spec(s: Seq<char>) -> Option<u64> {
    let d = unsigned_digits(s);
    if all_digits(d) && digits_value(d) <= u64::MAX {
        Some(digits_value(d) as u64)
    } else {
        None
    }
}

/// What `i64::from_str` accepts: an optional `+` or `-`, then one or more
/// ASCII digits whose signed value fits in 64 bits.
pub open spec fn parse_i64_spec(s: Seq<char>) -> Option<i64> {
    if s.len() > 0 && s[0] == '-' {
        let d = s.drop_first();
        if all_digits(d) && digits_value(d) <= 0x8000_0000_0000_0000 {
            Some((-(digits_value(d) as int)) as i64)
        } else {
            None
        }
    } else {
        let d = unsigned_digits(s);
        if all_digits(d) && digits_value(d) <= i64::MAX {
            Some(digits_value(d) as i64)
        } else {
            None
        }
    }
}

/// A longer run of digits is worth at least as much as any of its prefixes.
proof fn lemma_digits_value_prefix(d: Seq<char>, k: int)
    requires
        0 <= k <= d.len(),
    ensures
        digits_value(d.take(k)) <= digits_value(d),
    decreases d.len(),
{
    if k < d.len() {
        lemma_digits_value_prefix(d.drop_last(), k);
        assert(d.drop_last().take(k) =~= d.take(k));
    } else {
        assert(d.take(k) =~= d);
    }
}

fn digit_of(c: char) -> (r: Option<u64>)
    ensures
        r == (if is_digit(c) {
            Some(digit_value(c) as u64)
        } else {
            None
        }),
{
    if '0' <= c && c <= '9' {
        Some((c as u32 - '0' as u32) as u64)
    } else {
        None
    }
}

/// The value of `s[start..]` when it is a non-empty run of digits that fits
/// in 64 bits.
fn parse_digits(s: &Vec<char>, start: usize) -> (r: Option<u64>)
    requires
        start <= s.len(),
    ensures
        r == (if all_digits(s@.skip(start as int)) && digits_value(s@.skip(start as int))
            <= u64::MAX {
            Some(digits_value(s@.skip(start as int)) as u64)
        } else {
            None
        }),
{
    let ghost d = s@.skip(start as int);
    if start == s.len() {
        return None;
    }
    let mut acc: u64 = 0;
    let mut i: usize = start;
    while i < s.len()
        invariant
            start <= i <= s.len(),
            d == s@.skip(start as int),
            forall|j: int| 0 <= j < i - start ==> is_digit(#[trigger] d[j]),
            acc as nat == digits_value(d.take(i - start)),
        decreases s.len() - i,
    {
        let k = i - start;
        assert(d.take(k + 1).drop_last() =~= d.take(k as int));
        assert(d.take(k + 1).last() == s@[i as int]);
        match digit_of(s[i]) {
            None => {
                assert(!is_digit(d[k as int]));
                return None;
            },
            Some(v) => {
                if acc > (u64::MAX - v) / 10 {
                    proof {
                        assert(acc * 10 + v > u64::MAX) by (nonlinear_arith)
                            requires
                                acc > (u64::MAX - v) / 10,
                                v <= 9,
                        ;
                        lemma_digits_value_prefix(d, k + 1);
                    }
                    return None;
                }
                assert(acc * 10 + v <= u64::MAX) by (nonlinear_arith)
                    requires
                        acc <= (u64::MAX - v) / 10,
                        v <= 9,
                ;
                acc = acc * 10 + v;
            },
        }
        i = i + 1;
    }
    assert(d.take(s.len() - start) =~= d);
    Some(acc)
}

/// Parses an unsigned decimal as `u64::from_str` does.
pub fn parse_u64(s: &Vec<char>) -> (r: Option<u64>)
    ensures
        r == parse_u64_spec(s@),
{
    if s.len() > 0 && s[0] == '+' {
        assert(s@.skip(1) =~= s@.drop_first());
        parse_digits(s, 1)
    } else {
        assert(s@.skip(0) =~= s@);
        parse_digits(s, 0)
    }
}

/// Parses a signed decimal as `i64::from_str` does.
pub fn parse_i64(s: &Vec<char>) -> (r: Option<i64>)
    ensures
        r == parse_i64_spec(s@),
{
    if s.len() > 0 && s[0] == '-' {
        assert(s@.skip(1) =~= s@.drop_first());
        match parse_digits(s, 1) {
            Some(m) => {
                if m <= 0x8000_0000_0000_0000u64 {
                    if m == 0x8000_0000_0000_0000u64 {
                        Some(i64::MIN)
                    } else {
                        Some(-(m as i64))
                    }
                } else {
                    None
                }
            },
            None => None,
        }
    } else {
        let start: usize = if s.len() > 0 && s[0] == '+' {
            1
        } else {
            0
        };
        assert(s@.skip(1) =~= s@.drop_first());
        assert(s@.skip(0) =~= s@);
        match parse_digits(s, start) {
            Some(m) => {
                if m <= i64::MAX as u64 {
                    Some(m as i64)
                } else {
                    None
                }
            },
            None => None,
        }
    }
}

/// A digit character is worth the digit it shows.
pub proof fn lemma_digit_char_value(d: nat)
    requires
        d < 10,
    ensures
        is_digit(digit_char(d)),
        digit_value(digit_char(d)) == d,
        digit_char(d) != '+',
        digit_char(d) != '-',
{
}

/// The decimal rendering of `n` is a run of digits worth `n`.
pub proof fn lemma_decimal_digits(n: nat)
    ensures
        all_digits(decimal(n)),
        digits_value(decimal(n)) == n,
        decimal(n)[0] != '+',
        decimal(n)[0] != '-',
    decreases n,
{
    if n < 10 {
        lemma_digit_char_value(n);
        assert(decimal(n).drop_last() =~= Seq::<char>::empty());
        assert(decimal(n).last() == digit_char(n));
        assert(digits_value(decimal(n)) == digits_value(decimal(n).drop_last()) * 10 + digit_value(digit_char(n)));
    } else {
        lemma_decimal_digits(n / 10);
        lemma_digit_char_value(n % 10);
        let prev = decimal(n / 10);
        assert(decimal(n) == prev.push(digit_char(n % 10)));
        assert(decimal(n).drop_last() =~= prev);
        assert forall|i: int| 0 <= i < decimal(n).len() implies is_digit(#[trigger] decimal(n)[i]) by {
            if i < prev.len() {
                assert(decimal(n)[i] == prev[i]);
            }
        }
        assert(decimal(n)[0] == prev[0]);
        assert(decimal(n).last() == digit_char(n % 10));
        assert(digits_value(decimal(n)) == digits_value(prev) * 10 + digit_value(digit_char(n % 10)));
        assert((n / 10) * 10 + n % 10 == n) by (nonlinear_arith);
    }
}

/// What the bot writes as a number reads back as the same number.
pub proof fn law_decimal_round_trip(n: u64)
    ensures
        parse_u64_spec(decimal(n as nat)) == Some(n),
        n <= i64::MAX ==> parse_i64_spec(decimal(n as nat)) == Some(n as i64),
{
    lemma_decimal_digits(n as nat);
}

} // verus!
