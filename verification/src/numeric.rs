//! Numeric text and scalar bit patterns.
//!
//! The application's numeric values are IEEE 754 single-precision scalars.
//! This library never computes with such scalars directly; it carries each
//! one as its 32-bit pattern (`u32`) and reasons about the pattern. Two
//! things about those patterns are pure integer logic and are verified here:
//! which strings are valid numeric input (the decimal grammar that the
//! standard library documents for single-precision parsing), and how two
//! patterns compare as scalars.

use vstd::prelude::*;

verus! {

pub open spec fn is_ascii_digit(c: char) -> bool {
    '0' <= c && c <= '9'
}

/// First position at or after `from` that does not hold a decimal digit
/// (the end of the digit run starting at `from`).
pub open spec fn digit_run_end(s: Seq<char>, from: int) -> int
    decreases s.len() - from,
{
    if 0 <= from && from < s.len() && is_ascii_digit(s[from]) {
        digit_run_end(s, from + 1)
    } else {
        from
    }
}

/// `s[from..]` is one or more digits, running to the end of the text
/// (the grammar's `Count`, standing last in its production).
pub open spec fn count_runs_to_end(s: Seq<char>, from: int) -> bool {
    from < s.len() && digit_run_end(s, from) == s.len()
}

/// `s[from..]` is an optional sign followed by a `Count` to the end.
pub open spec fn signed_count_runs_to_end(s: Seq<char>, from: int) -> bool {
    if from < s.len() && (s[from] == '+' || s[from] == '-') {
        count_runs_to_end(s, from + 1)
    } else {
        count_runs_to_end(s, from)
    }
}

/// `s[from..]` is an exponent part: `('e' | 'E') Sign? Count`.
pub open spec fn exponent_runs_to_end(s: Seq<char>, from: int) -> bool {
    from < s.len() && (s[from] == 'e' || s[from] == 'E') && signed_count_runs_to_end(s, from + 1)
}

/// Either the text ends at `from`, or an exponent part runs to the end.
pub open spec fn optional_exponent_to_end(s: Seq<char>, from: int) -> bool {
    from == s.len() || exponent_runs_to_end(s, from)
}

/// `s[from..]` is a `Number`: `Count '.'? Count? Exp?` or `'.' Count Exp?`.
/// The digit runs before and after the point may not both be empty.
pub open spec fn number_runs_to_end(s: Seq<char>, from: int) -> bool {
    let int_end = digit_run_end(s, from);
    if int_end < s.len() && s[int_end] == '.' {
        let frac_end = digit_run_end(s, int_end + 1);
        (int_end > from || frac_end > int_end + 1) && optional_exponent_to_end(s, frac_end)
    } else {
        int_end > from && optional_exponent_to_end(s, int_end)
    }
}

/// `c` is the letter `lo`, compared without regard to case.
pub open spec fn letter_nocase(c: char, lo: char, up: char) -> bool {
    c == lo || c == up
}

/// `s[from..]` is the keyword `inf`, without regard to case.
pub open spec fn inf_runs_to_end(s: Seq<char>, from: int) -> bool {
    &&& s.len() - from == 3
    &&& letter_nocase(s[from], 'i', 'I')
    &&& letter_nocase(s[from + 1], 'n', 'N')
    &&& letter_nocase(s[from + 2], 'f', 'F')
}

/// `s[from..]` is the keyword `infinity`, without regard to case.
pub open spec fn infinity_runs_to_end(s: Seq<char>, from: int) -> bool {
    &&& s.len() - from == 8
    &&& letter_nocase(s[from], 'i', 'I')
    &&& letter_nocase(s[from + 1], 'n', 'N')
    &&& letter_nocase(s[from + 2], 'f', 'F')
    &&& letter_nocase(s[from + 3], 'i', 'I')
    &&& letter_nocase(s[from + 4], 'n', 'N')
    &&& letter_nocase(s[from + 5], 'i', 'I')
    &&& letter_nocase(s[from + 6], 't', 'T')
    &&& letter_nocase(s[from + 7], 'y', 'Y')
}

/// `s[from..]` is the keyword `nan`, without regard to case.
pub open spec fn nan_runs_to_end(s: Seq<char>, from: int) -> bool {
    &&& s.len() - from == 3
    &&& letter_nocase(s[from], 'n', 'N')
    &&& letter_nocase(s[from + 1], 'a', 'A')
    &&& letter_nocase(s[from + 2], 'n', 'N')
}

/// The text matches the grammar that the standard library documents for
/// parsing a single-precision scalar:
///
/// ```text
/// Float  ::= Sign? ( 'inf' | 'infinity' | 'nan' | Number )
/// Number ::= Count '.'? Count? Exp? | '.' Count Exp?
/// Exp    ::= ('e' | 'E') Sign? Count
/// Count  ::= Digit+
/// ```
///
/// with the three keywords compared without regard to case. Exactly these
/// texts parse; all others are rejected by the parser.
pub open spec fn is_float_text(s: Seq<char>) -> bool {
    let body = if s.len() > 0 && (s[0] == '+' || s[0] == '-') {
        1int
    } else {
        0int
    };
    ||| inf_runs_to_end(s, body)
    ||| infinity_runs_to_end(s, body)
    ||| nan_runs_to_end(s, body)
    ||| number_runs_to_end(s, body)
}

/// An input field accepts a text when it is empty or is valid numeric text.
pub open spec fn accepts_field_text(s: Seq<char>) -> bool {
    s.len() == 0 || is_float_text(s)
}

fn exec_digit_run_end(s: &str, from: usize, len: usize) -> (r: usize)
    requires
        len == s@.len(),
        from <= len,
    ensures
        r == digit_run_end(s@, from as int),
        from <= r <= len,
{
    let mut i: usize = from;
    while i < len
        invariant
            from <= i <= len,
            len == s@.len(),
            digit_run_end(s@, from as int) == digit_run_end(s@, i as int),
        decreases len - i,
    {
        let c = s.get_char(i);
        if !('0' <= c && c <= '9') {
            return i;
        }
        i = i + 1;
    }
    i
}

fn exec_count_to_end(s: &str, from: usize, len: usize) -> (r: bool)
    requires
        len == s@.len(),
        from <= len,
    ensures
        r == count_runs_to_end(s@, from as int),
{
    from < len && exec_digit_run_end(s, from, len) == len
}

fn exec_signed_count_to_end(s: &str, from: usize, len: usize) -> (r: bool)
    requires
        len == s@.len(),
        from <= len,
    ensures
        r == signed_count_runs_to_end(s@, from as int),
{
    if from < len {
        let c = s.get_char(from);
        if c == '+' || c == '-' {
            return exec_count_to_end(s, from + 1, len);
        }
    }
    exec_count_to_end(s, from, len)
}

fn exec_optional_exponent_to_end(s: &str, from: usize, len: usize) -> (r: bool)
    requires
        len == s@.len(),
        from <= len,
    ensures
        r == optional_exponent_to_end(s@, from as int),
{
    if from == len {
        return true;
    }
    let c = s.get_char(from);
    (c == 'e' || c == 'E') && exec_signed_count_to_end(s, from + 1, len)
}

fn exec_number_to_end(s: &str, from: usize, len: usize) -> (r: bool)
    requires
        len == s@.len(),
        from <= len,
    ensures
        r == number_runs_to_end(s@, from as int),
{
    let int_end = exec_digit_run_end(s, from, len);
    if int_end < len && s.get_char(int_end) == '.' {
        let frac_end = exec_digit_run_end(s, int_end + 1, len);
        (int_end > from || frac_end > int_end + 1) && exec_optional_exponent_to_end(
            s,
            frac_end,
            len,
        )
    } else {
        int_end > from && exec_optional_exponent_to_end(s, int_end, len)
    }
}

fn exec_letter_nocase(s: &str, i: usize, lo: char, up: char) -> (r: bool)
    requires
        i < s@.len(),
    ensures
        r == letter_nocase(s@[i as int], lo, up),
{
    let c = s.get_char(i);
    c == lo || c == up
}

fn exec_keyword_to_end(s: &str, from: usize, len: usize) -> (r: bool)
    requires
        len == s@.len(),
        from <= len,
    ensures
        r == (inf_runs_to_end(s@, from as int) || infinity_runs_to_end(s@, from as int)
            || nan_runs_to_end(s@, from as int)),
{
    if len - from == 3 {
        let inf = exec_letter_nocase(s, from, 'i', 'I') && exec_letter_nocase(s, from + 1, 'n', 'N')
            && exec_letter_nocase(s, from + 2, 'f', 'F');
        let nan = exec_letter_nocase(s, from, 'n', 'N') && exec_letter_nocase(s, from + 1, 'a', 'A')
            && exec_letter_nocase(s, from + 2, 'n', 'N');
        inf || nan
    } else if len - from == 8 {
        exec_letter_nocase(s, from, 'i', 'I') && exec_letter_nocase(s, from + 1, 'n', 'N')
            && exec_letter_nocase(s, from + 2, 'f', 'F') && exec_letter_nocase(s, from + 3, 'i', 'I')
            && exec_letter_nocase(s, from + 4, 'n', 'N') && exec_letter_nocase(s, from + 5, 'i', 'I')
            && exec_letter_nocase(s, from + 6, 't', 'T') && exec_letter_nocase(s, from + 7, 'y', 'Y')
    } else {
        false
    }
}

/// The text matches the documented single-precision grammar ([`is_float_text`]).
pub fn is_valid_float_text(s: &str) -> (r: bool)
    ensures
        r == is_float_text(s@),
{
    let len = s.unicode_len();
    let body: usize = if len > 0 {
        let c = s.get_char(0);
        if c == '+' || c == '-' {
            1
        } else {
            0
        }
    } else {
        0
    };
    exec_keyword_to_end(s, body, len) || exec_number_to_end(s, body, len)
}

/// The text is empty or matches the single-precision grammar
/// ([`accepts_field_text`]): exactly the texts an input field accepts.
pub fn accepts_numeric_text(s: &str) -> (r: bool)
    ensures
        r == accepts_field_text(s@),
{
    s.unicode_len() == 0 || is_valid_float_text(s)
}

/// Magnitude bits of a scalar pattern: everything but the sign bit.
pub open spec fn scalar_magnitude(bits: u32) -> u32 {
    bits & 0x7FFF_FFFF
}

/// The pattern's sign bit is set. For a scalar value this is exactly
/// `is_sign_negative`: true for every negative value and for negative zero.
pub open spec fn scalar_sign_negative(bits: u32) -> bool {
    bits >= 0x8000_0000
}

/// The pattern encodes a NaN: exponent bits all ones and a non-zero
/// fraction, which is exactly a magnitude above that of infinity.
pub open spec fn scalar_is_nan(bits: u32) -> bool {
    scalar_magnitude(bits) > 0x7F80_0000
}

/// Where the scalar stands on the number line, with both zeros at 0:
/// the magnitude bits, negated when the sign bit is set. IEEE 754 orders
/// same-sign values exactly as their magnitude bits.
pub open spec fn scalar_order_key(bits: u32) -> int {
    if scalar_sign_negative(bits) {
        -(scalar_magnitude(bits) as int)
    } else {
        scalar_magnitude(bits) as int
    }
}

/// The IEEE 754 comparison `a <= b` on scalar patterns: false whenever
/// either side is a NaN, and the number-line order otherwise.
pub open spec fn scalar_le(a: u32, b: u32) -> bool {
    !scalar_is_nan(a) && !scalar_is_nan(b) && scalar_order_key(a) <= scalar_order_key(b)
}

/// The magnitude bits are the pattern itself, less the sign bit when that
/// is set.
pub proof fn lemma_magnitude_split(a: u32)
    ensures
        scalar_sign_negative(a) ==> scalar_magnitude(a) == a - 0x8000_0000,
        !scalar_sign_negative(a) ==> scalar_magnitude(a) == a,
{
    assert(a >= 0x8000_0000 ==> (a & 0x7FFF_FFFF) == a - 0x8000_0000) by (bit_vector);
    assert(a < 0x8000_0000 ==> (a & 0x7FFF_FFFF) == a) by (bit_vector);
}

fn exec_magnitude(bits: u32) -> (r: u32)
    ensures
        r == scalar_magnitude(bits),
        r <= 0x7FFF_FFFF,
{
    proof {
        assert((bits & 0x7FFF_FFFF) <= 0x7FFF_FFFF) by (bit_vector);
    }
    bits & 0x7FFF_FFFF
}

/// The sign bit of the pattern is set (the scalar displays as negative).
pub fn scalar_bits_negative(bits: u32) -> (r: bool)
    ensures
        r == scalar_sign_negative(bits),
{
    bits >= 0x8000_0000
}

/// The pattern encodes a NaN.
pub fn scalar_bits_nan(bits: u32) -> (r: bool)
    ensures
        r == scalar_is_nan(bits),
{
    exec_magnitude(bits) > 0x7F80_0000
}

/// IEEE 754 `a <= b` on scalar patterns ([`scalar_le`]).
pub fn scalar_bits_le(a: u32, b: u32) -> (r: bool)
    ensures
        r == scalar_le(a, b),
{
    if scalar_bits_nan(a) || scalar_bits_nan(b) {
        return false;
    }
    let a_neg = scalar_bits_negative(a);
    let b_neg = scalar_bits_negative(b);
    let a_mag = exec_magnitude(a);
    let b_mag = exec_magnitude(b);
    proof {
        lemma_magnitude_split(a);
        lemma_magnitude_split(b);
    }
    if a_neg {
        !b_neg || a_mag >= b_mag
    } else if b_neg {
        a_mag == 0 && b_mag == 0
    } else {
        a_mag <= b_mag
    }
}

} // verus!
