//! Duration formatting: a total number of seconds becomes the
//! `minutes:seconds` text shown next to each result.
//!
//! The padding rule is deliberately asymmetric and is kept exactly as the
//! client has always displayed it: the seconds are zero-padded only when
//! they are below ten while the minutes exceed ten, and the minutes are
//! zero-padded only when the seconds exceed ten while the minutes are below
//! ten. Every other combination is printed without padding.

use vstd::prelude::*;

use crate::text::chars_to_string;

verus! {

/// The decimal digit character for `n`, which must be below ten.
pub open spec fn digit_char(n: nat) -> char {
    if n == 0 {
        '0'
    } else if n == 1 {
        '1'
    } else if n == 2 {
        '2'
    } else if n == 3 {
        '3'
    } else if n == 4 {
        '4'
    } else if n == 5 {
        '5'
    } else if n == 6 {
        '6'
    } else if n == 7 {
        '7'
    } else if n == 8 {
        '8'
    } else {
        '9'
    }
}

/// Decimal text of a natural number, most significant digit first and
/// without leading zeroes (zero itself is the single digit `0`).
pub open spec fn dec_text(n: nat) -> Seq<char>
    decreases n,
{
    if n < 10 {
        seq![digit_char(n)]
    } else {
        dec_text(n / 10).push(digit_char(n % 10))
    }
}

/// Decimal text of an integer: a minus sign before the magnitude when the
/// value is negative, as the standard formatter prints it.
pub open spec fn int_text(n: int) -> Seq<char> {
    if n < 0 {
        seq!['-'] + dec_text((-n) as nat)
    } else {
        dec_text(n as nat)
    }
}

/// The quotient as the machine division of signed integers computes it:
/// truncation toward zero.
pub open spec fn quot(a: int, b: int) -> int
    recommends
        b > 0,
{
    if a >= 0 {
        a / b
    } else {
        -((-a) / b)
    }
}

/// The remainder as the machine remainder of signed integers computes it:
/// it carries the sign of the dividend.
pub open spec fn rem(a: int, b: int) -> int
    recommends
        b > 0,
{
    if a >= 0 {
        a % b
    } else {
        -((-a) % b)
    }
}

/// The value a sign flag and a magnitude stand for.
pub open spec fn signed_val(neg: bool, mag: nat) -> int {
    if neg {
        -(mag as int)
    } else {
        mag as int
    }
}

/// The displayed text for a duration of `d` seconds, under the asymmetric
/// padding rule described at the top of this module.
pub open spec fn duration_text(d: int) -> Seq<char> {
    let m = quot(d, 60);
    let s = rem(d, 60);
    if s < 10 && m > 10 {
        int_text(m) + seq![':', '0'] + int_text(s)
    } else if s > 10 && m < 10 {
        seq!['0'] + int_text(m) + seq![':'] + int_text(s)
    } else {
        int_text(m) + seq![':'] + int_text(s)
    }
}

/// Appends the single digit `n` to `out`.
fn push_digit(out: &mut Vec<char>, n: u64)
    requires
        n < 10,
    ensures
        final(out)@ == old(out)@.push(digit_char(n as nat)),
{
    let c: char = if n == 0 {
        '0'
    } else if n == 1 {
        '1'
    } else if n == 2 {
        '2'
    } else if n == 3 {
        '3'
    } else if n == 4 {
        '4'
    } else if n == 5 {
        '5'
    } else if n == 6 {
        '6'
    } else if n == 7 {
        '7'
    } else if n == 8 {
        '8'
    } else {
        '9'
    };
    out.push(c);
}

/// Appends the decimal text of `n` to `out`.
pub(crate) fn push_dec(out: &mut Vec<char>, n: u64)
    ensures
        final(out)@ == old(out)@ + dec_text(n as nat),
    decreases n,
{
    if n >= 10 {
        push_dec(out, n / 10);
        push_digit(out, n % 10);
        proof {
            assert(final(out)@ =~= old(out)@ + dec_text(n as nat));
        }
    } else {
        push_digit(out, n);
        proof {
            assert(old(out)@.push(digit_char(n as nat)) =~= old(out)@ + dec_text(n as nat));
        }
    }
}

/// Appends the decimal text of the value that `neg` and `mag` stand for.
fn push_signed(out: &mut Vec<char>, neg: bool, mag: u64)
    ensures
        final(out)@ == old(out)@ + int_text(signed_val(neg, mag as nat)),
{
    if neg && mag > 0 {
        out.push('-');
        push_dec(out, mag);
        proof {
            assert(final(out)@ =~= old(out)@ + int_text(signed_val(neg, mag as nat)));
        }
    } else {
        push_dec(out, mag);
    }
}

/// Formats a duration of `d` seconds for display.
pub fn format_duration(d: i32) -> (s: String)
    ensures
        s@ == duration_text(d as int),
{
    let neg: bool = d < 0;
    let dd: i64 = d as i64;
    let mag: u64 = if dd < 0 {
        (-dd) as u64
    } else {
        dd as u64
    };
    let m: u64 = mag / 60;
    let sec: u64 = mag % 60;
    let m_neg: bool = neg && m > 0;
    let s_neg: bool = neg && sec > 0;
    proof {
        assert(quot(d as int, 60) == signed_val(m_neg, m as nat));
        assert(rem(d as int, 60) == signed_val(s_neg, sec as nat));
    }
    let pad_seconds: bool = (s_neg || sec < 10) && (!m_neg && m > 10);
    let pad_minutes: bool = (!s_neg && sec > 10) && (m_neg || m < 10);
    let mut out: Vec<char> = Vec::new();
    if pad_seconds {
        push_signed(&mut out, m_neg, m);
        out.push(':');
        out.push('0');
        push_signed(&mut out, s_neg, sec);
    } else if pad_minutes {
        out.push('0');
        push_signed(&mut out, m_neg, m);
        out.push(':');
        push_signed(&mut out, s_neg, sec);
    } else {
        push_signed(&mut out, m_neg, m);
        out.push(':');
        push_signed(&mut out, s_neg, sec);
    }
    proof {
        assert(out@ =~= duration_text(d as int));
    }
    chars_to_string(&out)
}

} // verus!
