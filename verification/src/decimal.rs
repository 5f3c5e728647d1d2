//! Decimal notation for configured rates.
//!
//! A rate is written as digits, optionally followed by a point and more
//! digits: `1`, `0.5`, `1234.5678`. Its value is exact: the digits read as
//! one number, over ten to the number of digits behind the point.

use crate::amount::{lemma_pow10_positive, pow10, RawAmount};
use crate::ratio::Ratio;
use vstd::prelude::*;

verus! {

/// Whether `c` is one of the ten decimal digits.
pub open spec fn is_digit(c: char) -> bool {
    '0' <= c && c <= '9'
}

/// The number that a decimal digit stands for.
pub open spec fn digit_value(c: char) -> nat {
    (c as nat - '0' as nat) as nat
}

/// Whether every character of `s` is a decimal digit.
pub open spec fn all_digits(s: Seq<char>) -> bool {
    forall|i: int| 0 <= i < s.len() ==> is_digit(#[trigger] s[i])
}

/// The number that a sequence of digits stands for, read from the left.
pub open spec fn digits_value(s: Seq<char>) -> nat
    decreases s.len(),
{
    if s.len() == 0 {
        0
    } else {
        digits_value(s.drop_last()) * 10 + digit_value(s.last())
    }
}

/// The value of a rate in decimal notation, as numerator and denominator, or
/// `None` where the text is not in that notation, its digits, read as one
/// number, are above `u128::MAX`, or more than 77 digits follow the point.
pub open spec fn decimal_value(text: Seq<char>) -> Option<(nat, nat)> {
    if text.contains('.') {
        let k = text.index_of('.');
        let whole = text.subrange(0, k);
        let frac = text.subrange(k + 1, text.len() as int);
        if whole.len() > 0 && 0 < frac.len() <= 77 && all_digits(whole) && all_digits(frac)
            && digits_value(whole + frac) <= u128::MAX {
            Some((digits_value(whole + frac), pow10(frac.len())))
        } else {
            None
        }
    } else if text.len() > 0 && all_digits(text) && digits_value(text) <= u128::MAX {
        Some((digits_value(text), 1))
    } else {
        None
    }
}

/// Appending a digit to a sequence multiplies its value by ten and adds the
/// digit.
proof fn lemma_digits_push(s: Seq<char>, c: char)
    ensures
        digits_value(s.push(c)) == digits_value(s) * 10 + digit_value(c),
{
    assert(s.push(c).drop_last() =~= s);
    assert(s.push(c).last() == c);
}

/// A sequence of digits is never worth less than a prefix of it.
proof fn lemma_digits_monotone(s: Seq<char>, t: Seq<char>)
    ensures
        digits_value(s + t) >= digits_value(s),
    decreases t.len(),
{
    if t.len() == 0 {
        assert(s + t =~= s);
    } else {
        lemma_digits_monotone(s, t.drop_last());
        assert((s + t).drop_last() =~= s + t.drop_last());
    }
}

/// The digits of `text` before position `end`, without the point at `dot`.
pub open spec fn digits_before(text: Seq<char>, dot: Option<usize>, end: int) -> Seq<char> {
    match dot {
        None => text.subrange(0, end),
        Some(k) => text.subrange(0, k as int) + text.subrange(k + 1, end),
    }
}

/// What the reader knows after the first `end` characters: all of them are
/// digits but the one at `dot`, which is a point and not the first character.
pub open spec fn read_so_far(text: Seq<char>, dot: Option<usize>, end: int) -> bool {
    &&& 0 <= end <= text.len()
    &&& forall|j: int|
        0 <= j < end && !(dot is Some && dot->0 == j) ==> is_digit(#[trigger] text[j])
    &&& dot matches Some(k) ==> 0 < k < end && text[k as int] == '.'
}

/// A text with a character that is neither a digit nor a point has no value.
proof fn lemma_bad_char(text: Seq<char>, i: int)
    requires
        0 <= i < text.len(),
        text[i] != '.',
        !is_digit(text[i]),
    ensures
        decimal_value(text) is None,
{
    if text.contains('.') {
        let k = text.index_of('.');
        let whole = text.subrange(0, k);
        let frac = text.subrange(k + 1, text.len() as int);
        if i < k {
            assert(whole[i] == text[i]);
        } else {
            assert(frac[i - k - 1] == text[i]);
        }
    }
}

/// A text with two points has no value.
proof fn lemma_two_points(text: Seq<char>, a: int, b: int)
    requires
        0 <= a < b < text.len(),
        text[a] == '.',
        text[b] == '.',
    ensures
        decimal_value(text) is None,
{
    assert(text.contains('.'));
    let k = text.index_of('.');
    let whole = text.subrange(0, k);
    let frac = text.subrange(k + 1, text.len() as int);
    if a < k {
        assert(whole[a] == text[a]);
    } else {
        assert(frac[b - k - 1] == text[b]);
    }
}

/// A text that begins or ends with a point has no value.
proof fn lemma_point_at_edge(text: Seq<char>, i: int)
    requires
        0 <= i < text.len(),
        text[i] == '.',
        i == 0 || i == text.len() - 1,
    ensures
        decimal_value(text) is None,
{
    assert(text.contains('.'));
    let k = text.index_of('.');
    let whole = text.subrange(0, k);
    let frac = text.subrange(k + 1, text.len() as int);
    if i < k {
        assert(whole[i] == text[i]);
    } else if i > k {
        assert(frac[i - k - 1] == text[i]);
    }
}

/// Where the digits read so far are already worth more than `limit`, the
/// whole text, if it has a value, is worth more too.
proof fn lemma_prefix_bounds(text: Seq<char>, dot: Option<usize>, end: int, limit: nat)
    requires
        read_so_far(text, dot, end),
        digits_value(digits_before(text, dot, end)) > limit,
    ensures
        decimal_value(text) matches Some(v) ==> v.0 > limit,
{
    let n = text.len() as int;
    let read = digits_before(text, dot, end);
    if decimal_value(text) is Some {
        if text.contains('.') {
            let k = text.index_of('.');
            let whole = text.subrange(0, k);
            let frac = text.subrange(k + 1, n);
            match dot {
                Some(d) => {
                    if d < k {
                        assert(whole[d as int] == text[d as int]);
                    } else if d > k {
                        assert(frac[d - k - 1] == text[d as int]);
                    }
                    assert(d == k);
                    assert(whole + frac =~= read + text.subrange(end, n));
                    lemma_digits_monotone(read, text.subrange(end, n));
                },
                None => {
                    if k < end {
                        assert(is_digit(text[k]));
                    }
                    assert(whole + frac =~= read + (text.subrange(end, k) + frac));
                    lemma_digits_monotone(read, text.subrange(end, k) + frac);
                },
            }
        } else {
            assert(dot is None) by {
                if dot is Some {
                    assert(text[dot->0 as int] == '.');
                }
            }
            assert(text =~= read + text.subrange(end, n));
            lemma_digits_monotone(read, text.subrange(end, n));
        }
    }
}

/// Once the whole text is read, its value is that of the digits read, over
/// ten to the number of digits behind the point.
proof fn lemma_read_all(text: Seq<char>, dot: Option<usize>)
    requires
        read_so_far(text, dot, text.len() as int),
        text.len() > 0,
        dot matches Some(k) ==> k + 1 < text.len() && text.len() - k - 1 <= 77,
        digits_value(digits_before(text, dot, text.len() as int)) <= u128::MAX,
    ensures
        decimal_value(text) == Some(
            (
                digits_value(digits_before(text, dot, text.len() as int)),
                match dot {
                    Some(k) => pow10((text.len() - k - 1) as nat),
                    None => 1,
                },
            ),
        ),
{
    let n = text.len() as int;
    match dot {
        Some(d) => {
            assert(text.contains('.'));
            let k = text.index_of('.');
            if k != d {
                assert(is_digit(text[k]));
            }
            let whole = text.subrange(0, k);
            let frac = text.subrange(k + 1, n);
            assert(all_digits(whole)) by {
                assert forall|i: int| 0 <= i < whole.len() implies is_digit(#[trigger] whole[i]) by {
                    assert(whole[i] == text[i]);
                }
            }
            assert(all_digits(frac)) by {
                assert forall|i: int| 0 <= i < frac.len() implies is_digit(#[trigger] frac[i]) by {
                    assert(frac[i] == text[i + k + 1]);
                }
            }
        },
        None => {
            if text.contains('.') {
                let k = text.index_of('.');
                assert(is_digit(text[k]));
            }
            assert(text.subrange(0, n) =~= text);
            assert(all_digits(text));
        },
    }
}

/// Reads a rate in decimal notation.
pub fn parse_decimal(text: &str) -> (r: Option<Ratio>)
    ensures
        match r {
            Some(q) => q.wf() && decimal_value(text@) == Some((q.numer(), q.denom())),
            None => decimal_value(text@) is None,
        },
{
    let n = text.unicode_len();
    let mut i: usize = 0;
    let mut acc: u128 = 0;
    let mut dot: Option<usize> = None;
    assert(digits_before(text@, dot, 0) =~= Seq::<char>::empty());
    while i < n
        invariant
            n == text@.len(),
            i <= n,
            read_so_far(text@, dot, i as int),
            acc == digits_value(digits_before(text@, dot, i as int)),
        decreases n - i,
    {
        let c = text.get_char(i);
        if c == '.' {
            if i == 0 {
                proof {
                    lemma_point_at_edge(text@, 0);
                }
                return None;
            }
            match dot {
                Some(k) => {
                    proof {
                        lemma_two_points(text@, k as int, i as int);
                    }
                    return None;
                },
                None => {},
            }
            assert(digits_before(text@, Some(i), i + 1) =~= digits_before(text@, dot, i as int));
            dot = Some(i);
        } else if c >= '0' && c <= '9' {
            let d: u128 = (c as u32 - '0' as u32) as u128;
            proof {
                assert(digits_before(text@, dot, i + 1) =~= digits_before(text@, dot, i as int).push(
                    c,
                ));
                lemma_digits_push(digits_before(text@, dot, i as int), c);
            }
            let shifted: u128 = match acc.checked_mul(10) {
                Some(x) => x,
                None => {
                    proof {
                        lemma_prefix_bounds(text@, dot, i + 1, u128::MAX as nat);
                    }
                    return None;
                },
            };
            acc = match shifted.checked_add(d) {
                Some(x) => x,
                None => {
                    proof {
                        lemma_prefix_bounds(text@, dot, i + 1, u128::MAX as nat);
                    }
                    return None;
                },
            };
        } else {
            proof {
                lemma_bad_char(text@, i as int);
            }
            return None;
        }
        i = i + 1;
    }
    if n == 0 {
        return None;
    }
    let places: usize = match dot {
        Some(k) => n - k - 1,
        None => 0,
    };
    if dot.is_some() && places == 0 {
        proof {
            lemma_point_at_edge(text@, n - 1);
        }
        return None;
    }
    if places > 77 {
        assert(decimal_value(text@) is None) by {
            let k = text@.index_of('.');
            if k != dot->0 {
                if decimal_value(text@) is Some {
                    lemma_two_points(
                        text@,
                        if k < dot->0 { k } else { dot->0 as int },
                        if k < dot->0 { dot->0 as int } else { k },
                    );
                }
            }
        }
        return None;
    }
    proof {
        lemma_read_all(text@, dot);
        lemma_pow10_positive(places as nat);
    }
    match RawAmount::pow10(places as u8) {
        Some(den) => Ratio::new(RawAmount::from_u128(acc), den),
        None => None,
    }
}

} // verus!
