//! The fields of a line of text, and the values that they write.

use crate::numeric::{all_digits, decimal_value, digits_value, is_digit, Numeric, NumericView};
use crate::text::{chars_of, trimmed};
use vstd::prelude::*;

verus! {

/// The texts of the fields of a row.
pub open spec fn texts(row: Seq<String>) -> Seq<Seq<char>> {
    row.map_values(|field: String| field@)
}

/// The integer that `text` writes: an optional sign, `+` or `-`, and one
/// or more decimal digits, with nothing before, between or after them.
pub open spec fn integer_value(text: Seq<char>) -> Option<int> {
    let signed = text.len() > 0 && (text[0] == '-' || text[0] == '+');
    let digits = if signed {
        text.drop_first()
    } else {
        text
    };
    if digits.len() == 0 || !all_digits(digits) {
        None
    } else if text[0] == '-' {
        Some(-digits_value(digits))
    } else {
        Some(digits_value(digits))
    }
}

/// The integer that `text` writes, where it fits in 64 bits.
pub open spec fn i64_value(text: Seq<char>) -> Option<i64> {
    match integer_value(text) {
        Some(v) => if i64::MIN <= v <= i64::MAX {
            Some(v as i64)
        } else {
            None
        },
        None => None,
    }
}

/// The integer that `text` writes, where it fits in 32 bits.
pub open spec fn i32_value(text: Seq<char>) -> Option<i32> {
    match integer_value(text) {
        Some(v) => if i32::MIN <= v <= i32::MAX {
            Some(v as i32)
        } else {
            None
        },
        None => None,
    }
}

/// The value that `text` gives to a number of `len` digits, `precision` of
/// them after the decimal point, white space round it left aside. `None`
/// where nothing is left, or where `precision` is more than `len`.
pub open spec fn numeric_value(text: Seq<char>, len: nat, precision: nat) -> Option<int> {
    if trimmed(text).len() > 0 && precision <= len {
        decimal_value(trimmed(text), len, precision)
    } else {
        None
    }
}

/// The number of `len` digits, `precision` of them after the point, that
/// `text` writes.
pub open spec fn numeric_of(text: Seq<char>, len: nat, precision: nat) -> NumericView
    recommends
        numeric_value(text, len, precision) is Some,
{
    NumericView { value: numeric_value(text, len, precision)->0, len, precision }
}

/// One more digit at the end: ten times the value, and the digit, which is
/// no less than the value before.
proof fn lemma_digits_grow(s: Seq<char>, c: char)
    requires
        all_digits(s),
        is_digit(c),
    ensures
        digits_value(s.push(c)) == digits_value(s) * 10 + (c as int - 48),
        digits_value(s.push(c)) >= digits_value(s) >= 0,
    decreases s.len(),
{
    assert(s.push(c).drop_last() =~= s);
    if s.len() > 0 {
        let front = s.drop_last();
        assert(is_digit(s[s.len() - 1]));
        assert forall|i: int| 0 <= i < front.len() implies is_digit(#[trigger] front[i]) by {
            assert(front[i] == s[i]);
        }
        assert(front.push(s.last()) =~= s);
        lemma_digits_grow(front, s.last());
    }
}

/// Reads a 64-bit integer: `None` where `s` does not write one.
pub fn parse_i64(s: &str) -> (r: Option<i64>)
    ensures
        r == i64_value(s@),
{
    let text = chars_of(s);
    let n = text.len();
    let negative = n > 0 && text[0] == '-';
    let start: usize = if n > 0 && (text[0] == '-' || text[0] == '+') {
        1
    } else {
        0
    };
    let ghost digits = text@.skip(start as int);
    assert(digits =~= if start == 1 {
        text@.drop_first()
    } else {
        text@
    });
    if start == n {
        return None;
    }
    assert(integer_value(s@) == if !all_digits(digits) {
        None
    } else if negative {
        Some(-digits_value(digits))
    } else {
        Some(digits_value(digits))
    });
    let limit: i128 = 9223372036854775808;
    let mut value: i128 = 0;
    let mut over = false;
    let mut i: usize = start;
    while i < n
        invariant
            start <= i <= n,
            n == text@.len(),
            digits == text@.skip(start as int),
            !all_digits(digits) ==> integer_value(s@) is None,
            limit == 9223372036854775808,
            all_digits(digits.take(i - start)),
            !over ==> value == digits_value(digits.take(i - start)) && 0 <= value <= limit,
            over ==> digits_value(digits.take(i - start)) > limit,
        decreases n - i,
    {
        let c = text[i];
        if !('0' <= c && c <= '9') {
            assert(digits[i - start] == c);
            return None;
        }
        proof {
            assert(digits.take(i - start + 1) =~= digits.take(i - start).push(c));
            lemma_digits_grow(digits.take(i - start), c);
        }
        if !over {
            value = value * 10 + ((c as u8) - 48) as i128;
            if value > limit {
                over = true;
            }
        }
        i += 1;
    }
    assert(digits.take(n - start) =~= digits);
    if over {
        None
    } else if negative {
        Some((-value) as i64)
    } else if value == limit {
        None
    } else {
        Some(value as i64)
    }
}

/// Reads a 32-bit integer: `None` where `s` does not write one.
pub fn parse_i32(s: &str) -> (r: Option<i32>)
    ensures
        r == i32_value(s@),
{
    match parse_i64(s) {
        Some(v) => if -2147483648 <= v && v <= 2147483647 {
            Some(v as i32)
        } else {
            None
        },
        None => None,
    }
}

/// The 32-bit integer that `s` writes.
pub fn read_i32(s: &str) -> (r: i32)
    requires
        i32_value(s@) is Some,
    ensures
        Some(r) == i32_value(s@),
{
    parse_i32(s).unwrap()
}

/// The 64-bit integer that `s` writes.
pub fn read_i64(s: &str) -> (r: i64)
    requires
        i64_value(s@) is Some,
    ensures
        Some(r) == i64_value(s@),
{
    parse_i64(s).unwrap()
}

/// Whether `s` writes a number of `len` digits, `precision` of them after
/// the decimal point.
pub fn holds_numeric(s: &str, len: usize, precision: usize) -> (r: bool)
    ensures
        r == (numeric_value(s@, len as nat, precision as nat) is Some),
{
    Numeric::try_from_str(s, len, precision).is_some()
}

/// The number of `len` digits, `precision` of them after the decimal
/// point, that `s` writes.
pub fn read_numeric(s: &str, len: usize, precision: usize) -> (r: Numeric)
    requires
        numeric_value(s@, len as nat, precision as nat) is Some,
    ensures
        r@ == numeric_of(s@, len as nat, precision as nat),
{
    Numeric::from_str(s, len, precision).unwrap()
}

} // verus!
