//! The numeric field of a row: a decimal in [-99.9, 99.9] with exactly one
//! fractional digit, represented as an integer count of tenths in
//! [MIN_VALUE, MAX_VALUE] and rendered as text by `format_value`.

use vstd::prelude::*;

verus! {

/// Smallest value a row may carry, in tenths (inclusive).
pub const MIN_VALUE: i16 = -999;

/// Largest value a row may carry, in tenths (inclusive).
pub const MAX_VALUE: i16 = 999;

/// The decimal digit character for `d` in 0..=9.
pub open spec fn digit_char(d: int) -> char {
    ((d + 48) as u8) as char
}

/// Decimal rendering of an integer in 0..=99: no leading zero on a
/// two-digit number, a single `0` for zero.
pub open spec fn spec_two_digit(n: int) -> Seq<char> {
    if n < 10 {
        seq![digit_char(n)]
    } else {
        seq![digit_char(n / 10), digit_char(n % 10)]
    }
}

/// Text form of a value of `v` tenths: an optional minus sign, the whole
/// part without leading zeros, a dot, and the single tenths digit.
pub open spec fn spec_format_value(v: int) -> Seq<char> {
    let a = if v < 0 { -v } else { v };
    let sign: Seq<char> = if v < 0 { seq!['-'] } else { Seq::empty() };
    sign + spec_two_digit(a / 10) + seq!['.', digit_char(a % 10)]
}

/// An ASCII decimal digit.
pub open spec fn is_digit_char(c: char) -> bool {
    '0' <= c && c <= '9'
}

/// The numeric value of a decimal digit character.
pub open spec fn digit_val(c: char) -> int {
    c as u32 - 48
}

/// Text of the shape `-?\d+\.\d`: an optional minus sign, then at least one
/// digit, one dot, and exactly one digit after it.
pub open spec fn matches_value_pattern(s: Seq<char>) -> bool {
    let body = if s.len() > 0 && s[0] == '-' {
        s.skip(1)
    } else {
        s
    };
    &&& body.len() >= 3
    &&& body[body.len() - 2] == '.'
    &&& forall|i: int| 0 <= i < body.len() - 2 ==> is_digit_char(#[trigger] body[i])
    &&& is_digit_char(body[body.len() - 1])
}

/// The tenths count a rendered value of this generator denotes: the whole
/// part (at most two digits here) times ten, plus the tenths digit, negated
/// under a leading minus sign.
pub open spec fn spec_parse_tenths(s: Seq<char>) -> int {
    let body = if s.len() > 0 && s[0] == '-' {
        s.skip(1)
    } else {
        s
    };
    let whole = if body.len() == 3 {
        digit_val(body[0])
    } else {
        10 * digit_val(body[0]) + digit_val(body[1])
    };
    let mag = 10 * whole + digit_val(body[body.len() - 1]);
    if s.len() > 0 && s[0] == '-' {
        -mag
    } else {
        mag
    }
}

/// Every rendered value matches `-?\d+\.\d`.
pub proof fn lemma_value_pattern(v: int)
    requires
        MIN_VALUE <= v <= MAX_VALUE,
    ensures
        matches_value_pattern(spec_format_value(v)),
{
    let s = spec_format_value(v);
    let a = if v < 0 { -v } else { v };
    let two = spec_two_digit(a / 10);
    let tail = seq!['.', digit_char(a % 10)];
    if v < 0 {
        assert(s[0] == '-');
        assert(s.skip(1) =~= two + tail);
    } else {
        assert(s[0] == two[0]);
        assert(!(s[0] == '-'));
    }
    let body = if s.len() > 0 && s[0] == '-' { s.skip(1) } else { s };
    assert(body =~= two + tail);
    assert(body[body.len() - 2] == '.');
    assert(is_digit_char(body[body.len() - 1]));
    assert(forall|i: int| 0 <= i < body.len() - 2 ==> is_digit_char(#[trigger] body[i]));
}

/// Rendering is faithful: the text of `v` tenths denotes `v` again, so with
/// `v` in [MIN_VALUE, MAX_VALUE] every rendered value lies in
/// [-99.9, 99.9].
pub proof fn lemma_value_round_trip(v: int)
    requires
        MIN_VALUE <= v <= MAX_VALUE,
    ensures
        spec_parse_tenths(spec_format_value(v)) == v,
{
    let s = spec_format_value(v);
    let a = if v < 0 { -v } else { v };
    let two = spec_two_digit(a / 10);
    let tail = seq!['.', digit_char(a % 10)];
    if v < 0 {
        assert(s[0] == '-');
        assert(s.skip(1) =~= two + tail);
    } else {
        assert(s[0] == two[0]);
        assert(!(s[0] == '-'));
    }
    let body = if s.len() > 0 && s[0] == '-' { s.skip(1) } else { s };
    assert(body =~= two + tail);
}

/// Relies on String::push: appends the given character to the end of the string.
#[verifier::external_body]
pub(crate) fn push_char(s: &mut String, c: char)
    ensures
        final(s)@ == old(s)@.push(c),
{
    s.push(c);
}

/// The decimal digit character for `d` in 0..=9, as executable code.
fn digit_char_exec(d: u8) -> (c: char)
    requires
        d < 10,
    ensures
        c == digit_char(d as int),
{
    (48 + d) as char
}

/// Renders `v` tenths as `-?\d+\.\d`: sign, whole part, dot, tenths digit.
pub fn format_value(v: i16) -> (r: String)
    requires
        MIN_VALUE <= v <= MAX_VALUE,
    ensures
        r@ == spec_format_value(v as int),
{
    let mut s = String::new();
    if v < 0 {
        push_char(&mut s, '-');
    }
    let a: i16 = if v < 0 { -v } else { v };
    let whole: i16 = a / 10;
    let tenths: i16 = a % 10;
    if whole >= 10 {
        push_char(&mut s, digit_char_exec((whole / 10) as u8));
        push_char(&mut s, digit_char_exec((whole % 10) as u8));
    } else {
        push_char(&mut s, digit_char_exec(whole as u8));
    }
    push_char(&mut s, '.');
    push_char(&mut s, digit_char_exec(tenths as u8));
    proof {
        assert(s@ =~= spec_format_value(v as int));
    }
    s
}

} // verus!
