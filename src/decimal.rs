//! Exact decimal numbers read from text such as `-1000.25`.
use vstd::prelude::*;
use crate::CalcError;
use crate::date::{is_digit, digit_value};

verus! {

/// Most significant digits a decimal text may hold.
pub const MAX_DIGITS: usize = 18;

pub open spec fn pow10(n: nat) -> int
    decreases n,
{
    if n == 0 { 1 } else { 10 * pow10((n - 1) as nat) }
}

pub open spec fn body_char(c: char) -> bool {
    is_digit(c) || c == '.'
}

/// Every char of `b` is a digit or a point.
pub open spec fn all_body_chars(b: Seq<char>) -> bool
    decreases b.len(),
{
    if b.len() == 0 { true } else { all_body_chars(b.drop_last()) && body_char(b.last()) }
}

pub open spec fn dot_count(b: Seq<char>) -> nat
    decreases b.len(),
{
    if b.len() == 0 {
        0
    } else {
        dot_count(b.drop_last()) + if b.last() == '.' { 1nat } else { 0nat }
    }
}

pub open spec fn digit_count(b: Seq<char>) -> nat
    decreases b.len(),
{
    if b.len() == 0 {
        0
    } else {
        digit_count(b.drop_last()) + if is_digit(b.last()) { 1nat } else { 0nat }
    }
}

/// The integer that the digits of `b` spell, the point ignored.
pub open spec fn mantissa(b: Seq<char>) -> int
    decreases b.len(),
{
    if b.len() == 0 {
        0
    } else if is_digit(b.last()) {
        10 * mantissa(b.drop_last()) + digit_value(b.last())
    } else {
        mantissa(b.drop_last())
    }
}

/// Number of digits after the point (0 without a point).
pub open spec fn frac_len(b: Seq<char>) -> nat
    decreases b.len(),
{
    if b.len() == 0 || b.last() == '.' || dot_count(b) == 0 {
        0
    } else {
        frac_len(b.drop_last()) + 1
    }
}

/// Length of the leading sign of `s`, if any.
pub open spec fn sign_len(s: Seq<char>) -> int {
    if s.len() > 0 && (s[0] == '-' || s[0] == '+') { 1 } else { 0 }
}

pub open spec fn is_negative_text(s: Seq<char>) -> bool {
    s.len() > 0 && s[0] == '-'
}

pub open spec fn body_of(s: Seq<char>) -> Seq<char> {
    s.subrange(sign_len(s), s.len() as int)
}

/// `[+-]? digits ('.' digits)?` with at most `MAX_DIGITS` digits.
pub open spec fn valid_decimal_body(b: Seq<char>) -> bool {
    &&& b.len() > 0
    &&& is_digit(b[0])
    &&& is_digit(b.last())
    &&& all_body_chars(b)
    &&& dot_count(b) <= 1
    &&& digit_count(b) <= MAX_DIGITS
}

pub open spec fn valid_decimal_text(s: Seq<char>) -> bool {
    valid_decimal_body(body_of(s))
}

/// The signed mantissa that a valid decimal text denotes.
pub open spec fn text_units(s: Seq<char>) -> int {
    if is_negative_text(s) { -mantissa(body_of(s)) } else { mantissa(body_of(s)) }
}

/// A decimal number: `units * 10^(-scale)`.
#[derive(PartialEq, Eq, Structural, Clone, Copy, Debug)]
pub struct Decimal {
    pub units: i64,
    pub scale: u32,
}

impl Decimal {
    pub open spec fn wf(&self) -> bool {
        self.scale <= MAX_DIGITS
    }
}

proof fn lemma_pow10_bound(n: nat)
    requires
        n <= 18,
    ensures
        pow10(n) <= 1_000_000_000_000_000_000,
{
    reveal_with_fuel(pow10, 19);
}

proof fn lemma_frac_le_digits(b: Seq<char>)
    requires
        all_body_chars(b),
    ensures
        frac_len(b) <= digit_count(b),
    decreases b.len(),
{
    if b.len() > 0 {
        lemma_frac_le_digits(b.drop_last());
    }
}

/// Parses a decimal text: an optional sign, digits, and an optional point
/// followed by digits.
pub fn parse_decimal(s: &str) -> (r: Result<Decimal, CalcError>)
    ensures
        r is Ok <==> valid_decimal_text(s@),
        r matches Ok(v) ==> v.wf() && v.units == text_units(s@) && v.scale == frac_len(
            body_of(s@),
        ),
        r matches Err(e) ==> e == CalcError::Parse,
{
    let n = s.unicode_len();
    let ghost text = s@;
    let mut start: usize = 0;
    let mut neg = false;
    if n > 0 {
        let c = s.get_char(0);
        if c == '-' {
            start = 1;
            neg = true;
        } else if c == '+' {
            start = 1;
        }
    }
    assert(start == sign_len(text));
    assert(neg == is_negative_text(text));
    let ghost body = body_of(text);
    let mut units: i64 = 0;
    let mut frac: usize = 0;
    let mut dots: usize = 0;
    let mut digits: usize = 0;
    let mut chars_ok = true;
    let mut i: usize = start;
    while i < n
        invariant
            n == text.len(),
            text == s@,
            start == sign_len(text),
            body == text.subrange(start as int, n as int),
            start <= i <= n,
            dots as nat == dot_count(text.subrange(start as int, i as int)),
            digits as nat == digit_count(text.subrange(start as int, i as int)),
            chars_ok == all_body_chars(text.subrange(start as int, i as int)),
            digits <= i,
            dots <= i,
            digits <= MAX_DIGITS ==> units as int == mantissa(
                text.subrange(start as int, i as int),
            ) && 0 <= units < pow10(digits as nat),
            frac as nat == frac_len(text.subrange(start as int, i as int)),
            frac <= i,
        decreases n - i,
    {
        let c = s.get_char(i);
        let ghost p = text.subrange(start as int, i as int);
        let ghost q = text.subrange(start as int, i + 1);
        assert(q.drop_last() =~= p);
        assert(q.last() == c);
        if c == '.' {
            dots = dots + 1;
        } else if '0' <= c && c <= '9' {
            if digits < MAX_DIGITS {
                let d = (c as u32 - '0' as u32) as i64;
                proof {
                    lemma_pow10_bound((digits + 1) as nat);
                    assert(pow10((digits + 1) as nat) == 10 * pow10(digits as nat));
                    assert(units * 10 + d < 10 * pow10(digits as nat)) by (nonlinear_arith)
                        requires
                            0 <= units < pow10(digits as nat),
                            0 <= d <= 9,
                    ;
                }
                units = units * 10 + d;
            }
            digits = digits + 1;
        } else {
            chars_ok = false;
        }
        if c == '.' {
            frac = 0;
        } else if dots > 0 {
            frac = frac + 1;
        }
        i = i + 1;
    }
    let ghost b = text.subrange(start as int, n as int);
    if start >= n || !chars_ok || dots > 1 || digits > MAX_DIGITS {
        return Err(CalcError::Parse);
    }
    let first = s.get_char(start);
    let last = s.get_char(n - 1);
    assert(b[0] == text[start as int]);
    assert(b.last() == text[n - 1]);
    if !('0' <= first && first <= '9') || !('0' <= last && last <= '9') {
        return Err(CalcError::Parse);
    }
    proof {
        lemma_frac_le_digits(b);
    }
    Ok(Decimal { units: if neg { -units } else { units }, scale: frac as u32 })
}

} // verus!
