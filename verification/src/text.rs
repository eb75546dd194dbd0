//! Decimal rendering of integers into strings.

use vstd::prelude::*;
use crate::duration::magnitude;

verus! {

/// `String::push` appends one character to the end of the string and leaves
/// the characters before it untouched.
pub assume_specification[ String::push ](s: &mut String, ch: char)
    ensures
        final(s)@ == old(s)@.push(ch),
;

/// The character that writes the decimal digit `d`.
pub open spec fn digit_char(d: int) -> char {
    if d == 0 {
        '0'
    } else if d == 1 {
        '1'
    } else if d == 2 {
        '2'
    } else if d == 3 {
        '3'
    } else if d == 4 {
        '4'
    } else if d == 5 {
        '5'
    } else if d == 6 {
        '6'
    } else if d == 7 {
        '7'
    } else if d == 8 {
        '8'
    } else {
        '9'
    }
}

/// The decimal numeral of `n`, most significant digit first, without
/// leading zeros (zero itself is written `0`).
pub open spec fn decimal(n: nat) -> Seq<char>
    decreases n,
{
    if n < 10 {
        seq![digit_char(n as int)]
    } else {
        decimal(n / 10).push(digit_char((n % 10) as int))
    }
}

/// The character for a single decimal digit.
pub fn digit(d: u8) -> (c: char)
    requires
        d < 10,
    ensures
        c == digit_char(d as int),
{
    match d {
        0 => '0',
        1 => '1',
        2 => '2',
        3 => '3',
        4 => '4',
        5 => '5',
        6 => '6',
        7 => '7',
        8 => '8',
        _ => '9',
    }
}

/// Appends the decimal numeral of `n` to `out`.
pub fn push_decimal(out: &mut String, n: u64)
    ensures
        final(out)@ == old(out)@ + decimal(n as nat),
    decreases n,
{
    if n >= 10 {
        push_decimal(out, n / 10);
    }
    out.push(digit((n % 10) as u8));
}

/// The numeral of `i` as written without a sign for zero and above, and
/// with a minus sign below zero.
pub open spec fn integer(i: int) -> Seq<char> {
    if i < 0 {
        seq!['-'] + decimal(magnitude(i))
    } else {
        decimal(magnitude(i))
    }
}

/// The numeral of `i` with its sign always written: `+` for zero and above,
/// `-` below zero.
pub open spec fn signed_integer(i: int) -> Seq<char> {
    seq![if i < 0 { '-' } else { '+' }] + decimal(magnitude(i))
}

/// The magnitude of `i`, which for the least `i64` no longer fits in one.
pub fn magnitude_of(i: i64) -> (m: u64)
    ensures
        m == magnitude(i as int),
{
    if i >= 0 {
        i as u64
    } else {
        (-(i + 1)) as u64 + 1
    }
}

/// Appends the numeral of `i` to `out`, with a minus sign where `i` is
/// negative.
pub fn push_integer(out: &mut String, i: i64)
    ensures
        final(out)@ == old(out)@ + integer(i as int),
{
    if i < 0 {
        out.push('-');
    }
    push_decimal(out, magnitude_of(i));
}

/// Appends the numeral of `i` to `out`, always with a sign.
pub fn push_signed_integer(out: &mut String, i: i64)
    ensures
        final(out)@ == old(out)@ + signed_integer(i as int),
{
    if i < 0 {
        out.push('-');
    } else {
        out.push('+');
    }
    push_decimal(out, magnitude_of(i));
}

/// `c` is one of the ten decimal digits.
pub open spec fn is_digit(c: char) -> bool {
    exists|d: int| 0 <= d < 10 && c == #[trigger] digit_char(d)
}

/// The number that the digit `c` stands for.
pub open spec fn digit_value(c: char) -> int {
    choose|d: int| 0 <= d < 10 && c == #[trigger] digit_char(d)
}

/// `s` is a numeral: one digit or more, and digits only.
pub open spec fn is_numeral(s: Seq<char>) -> bool {
    s.len() >= 1 && forall|i: int| 0 <= i < s.len() ==> is_digit(#[trigger] s[i])
}

/// The number that a numeral stands for, read in base ten.
pub open spec fn numeral_value(s: Seq<char>) -> int
    decreases s.len(),
{
    if s.len() == 0 {
        0
    } else {
        10 * numeral_value(s.drop_last()) + digit_value(s.last())
    }
}

/// Each digit character stands for the digit it was made of.
pub proof fn lemma_digit_value(d: int)
    requires
        0 <= d < 10,
    ensures
        is_digit(digit_char(d)),
        digit_value(digit_char(d)) == d,
{
    let c = digit_char(d);
    let v = digit_value(c);
    assert(0 <= v < 10 && c == digit_char(v));
}

/// The decimal rendering of `n` is a numeral, and read back it gives `n`.
pub proof fn lemma_decimal_is_numeral(n: nat)
    ensures
        is_numeral(decimal(n)),
        numeral_value(decimal(n)) == n,
    decreases n,
{
    let last = digit_char((n % 10) as int);
    lemma_digit_value((n % 10) as int);
    if n < 10 {
        let s = decimal(n);
        assert(s.drop_last().len() == 0);
        assert(numeral_value(s.drop_last()) == 0);
        assert(s.last() == last);
    } else {
        lemma_decimal_is_numeral(n / 10);
        let head = decimal(n / 10);
        let s = head.push(last);
        assert(s == decimal(n));
        assert(s.drop_last() == head);
        assert(s.last() == last);
        assert forall|i: int| 0 <= i < s.len() implies is_digit(#[trigger] s[i]) by {
            if i < head.len() {
                assert(s[i] == head[i]);
            }
        }
    }
}

} // verus!
