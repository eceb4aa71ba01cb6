//! Fixed-point decimal numbers: an integer value, a number of digits and a
//! number of digits after the decimal point.

use crate::text::{trim, trimmed};
use core::cmp::Ordering;
use core::ops::{Add, Mul, Sub};
use vstd::prelude::*;
use vstd::std_specs::cmp::PartialEqSpecImpl;
use vstd::std_specs::ops::{AddSpecImpl, MulSpecImpl, SubSpecImpl};

verus! {

/// A decimal number with `precision` digits after the decimal point, held
/// as the integer `value`: the number is `value / 10^precision`. `len` is
/// the number of digits that the number is declared with.
#[derive(Debug, Clone, Copy, Eq, PartialOrd)]
pub struct Numeric {
    value: i64,
    len: usize,
    precision: usize,
}

/// The mathematical value of a [`Numeric`].
pub struct NumericView {
    pub value: int,
    pub len: nat,
    pub precision: nat,
}

impl View for Numeric {
    type V = NumericView;

    closed spec fn view(&self) -> NumericView {
        NumericView {
            value: self.value as int,
            len: self.len as nat,
            precision: self.precision as nat,
        }
    }
}

/// Ten to the power `n`.
pub open spec fn pow10(n: nat) -> int
    decreases n,
{
    if n == 0 {
        1
    } else {
        10 * pow10((n - 1) as nat)
    }
}

/// Whether `c` is a decimal digit.
pub open spec fn is_digit(c: char) -> bool {
    '0' <= c && c <= '9'
}

/// Whether `s` holds decimal digits only.
pub open spec fn all_digits(s: Seq<char>) -> bool {
    forall|i: int| 0 <= i < s.len() ==> is_digit(#[trigger] s[i])
}

/// The number that the decimal digits `s` write. No digits write zero.
pub open spec fn digits_value(s: Seq<char>) -> int
    decreases s.len(),
{
    if s.len() == 0 {
        0
    } else {
        digits_value(s.drop_last()) * 10 + (s.last() as int - 48)
    }
}

/// Whether `text` begins with a minus sign.
pub open spec fn is_negative(text: Seq<char>) -> bool {
    text.len() > 0 && text[0] == '-'
}

/// `s` without the zeros at its end.
pub open spec fn strip_zeros(s: Seq<char>) -> Seq<char>
    decreases s.len(),
{
    if s.len() > 0 && s.last() == '0' {
        strip_zeros(s.drop_last())
    } else {
        s
    }
}

/// The place of the first `.` in `s`; the length of `s` where it has none.
pub open spec fn find_dot(s: Seq<char>) -> int
    decreases s.len(),
{
    if s.len() == 0 || s[0] == '.' {
        0
    } else {
        1 + find_dot(s.drop_first())
    }
}

/// What of `text` writes the digits: `text` without its minus sign and,
/// where it has a decimal point, without the zeros at its end.
pub open spec fn digits_text(text: Seq<char>) -> Seq<char> {
    let unsigned = if is_negative(text) {
        text.drop_first()
    } else {
        text
    };
    if find_dot(unsigned) < unsigned.len() {
        strip_zeros(unsigned)
    } else {
        unsigned
    }
}

/// The digits before the decimal point.
pub open spec fn whole_part(text: Seq<char>) -> Seq<char> {
    let s = digits_text(text);
    s.take(find_dot(s))
}

/// The digits after the decimal point.
pub open spec fn fraction_part(text: Seq<char>) -> Seq<char> {
    let s = digits_text(text);
    if find_dot(s) < s.len() {
        s.skip(find_dot(s) + 1)
    } else {
        Seq::empty()
    }
}

/// The value that `text` gives to a number of `len` digits, `precision` of
/// them after the decimal point: `text` is an optional minus sign, digits,
/// and optionally a decimal point and more digits. Zeros at the end of
/// the fraction do not count. There may be at most `len - precision` digits
/// before the point and `precision` after it. The value is the number that
/// the digits write, scaled to `precision` digits after the point; it has
/// to fit in 64 bits.
pub open spec fn decimal_value(text: Seq<char>, len: nat, precision: nat) -> Option<int>
    recommends
        precision <= len,
{
    let whole = whole_part(text);
    let fraction = fraction_part(text);
    if !all_digits(whole) || !all_digits(fraction) {
        None
    } else if whole.len() > len - precision || fraction.len() > precision {
        None
    } else {
        let magnitude = digits_value(whole + fraction) * pow10((precision - fraction.len()) as nat);
        if magnitude > i64::MAX {
            None
        } else if is_negative(text) {
            Some(-magnitude)
        } else {
            Some(magnitude)
        }
    }
}

/// Whether `r` is the number of `len` digits, `precision` of them after the
/// point, with the value `value`, or none where there is no value.
pub open spec fn is_numeric(
    r: Option<Numeric>,
    value: Option<int>,
    len: nat,
    precision: nat,
) -> bool {
    match r {
        Some(n) => value == Some(n@.value) && n@.len == len && n@.precision == precision,
        None => value is None,
    }
}

/// `find_dot` gives the first `.`: no `.` stands before it, and unless it
/// is the length of `s`, a `.` stands at it.
proof fn lemma_find_dot(s: Seq<char>)
    ensures
        0 <= find_dot(s) <= s.len(),
        forall|k: int| 0 <= k < find_dot(s) ==> s[k] != '.',
        find_dot(s) < s.len() ==> s[find_dot(s)] == '.',
    decreases s.len(),
{
    if s.len() == 0 || s[0] == '.' {
    } else {
        let rest = s.drop_first();
        lemma_find_dot(rest);
        assert forall|k: int| 0 <= k < find_dot(s) implies s[k] != '.' by {
            if k > 0 {
                assert(s[k] == rest[k - 1]);
            }
        }
        if find_dot(s) < s.len() {
            assert(s[find_dot(s)] == rest[find_dot(rest)]);
        }
    }
}

/// One more digit at the end: ten times the value, and the digit.
proof fn lemma_digits_push(s: Seq<char>, c: char)
    ensures
        digits_value(s.push(c)) == digits_value(s) * 10 + (c as int - 48),
{
    assert(s.push(c).drop_last() =~= s);
}

/// The first digits of a numeral write no more than the whole.
proof fn lemma_digits_prefix(s: Seq<char>, k: int)
    requires
        all_digits(s),
        0 <= k <= s.len(),
    ensures
        0 <= digits_value(s.take(k)) <= digits_value(s),
    decreases s.len(),
{
    if s.len() == 0 {
        assert(s.take(k) =~= s);
    } else {
        let front = s.drop_last();
        assert(is_digit(s[s.len() - 1]));
        assert forall|i: int| 0 <= i < front.len() implies is_digit(#[trigger] front[i]) by {
            assert(front[i] == s[i]);
        }
        if k == s.len() {
            assert(s.take(k) =~= s);
            lemma_digits_prefix(front, k - 1);
        } else {
            assert(s.take(k) =~= front.take(k));
            lemma_digits_prefix(front, k);
        }
    }
}

/// A power of ten is at least one.
proof fn lemma_pow10_positive(n: nat)
    ensures
        pow10(n) >= 1,
    decreases n,
{
    if n > 0 {
        lemma_pow10_positive((n - 1) as nat);
    }
}

/// Whether `text` has a `.` at or after `start`.
fn has_dot(text: &Vec<char>, start: usize) -> (r: bool)
    requires
        start <= text@.len(),
    ensures
        r == (find_dot(text@.skip(start as int)) < text@.len() - start),
{
    let mut i: usize = start;
    let ghost rest = text@.skip(start as int);
    proof {
        lemma_find_dot(rest);
    }
    while i < text.len()
        invariant
            start <= i <= text.len(),
            rest == text@.skip(start as int),
            forall|k: int| 0 <= k < i - start ==> rest[k] != '.',
            0 <= find_dot(rest) <= rest.len(),
            forall|k: int| 0 <= k < find_dot(rest) ==> rest[k] != '.',
            find_dot(rest) < rest.len() ==> rest[find_dot(rest)] == '.',
        decreases text.len() - i,
    {
        if text[i] == '.' {
            assert(rest[i - start] == '.');
            return true;
        }
        i += 1;
    }
    false
}

impl Numeric {
    /// The number `value / 10^precision`, declared with `len` digits.
    /// Nothing is checked of the three.
    pub fn new(value: i64, len: usize, precision: usize) -> (r: Numeric)
        ensures
            r@ == (NumericView {
                value: value as int,
                len: len as nat,
                precision: precision as nat,
            }),
    {
        Numeric { value, len, precision }
    }

    /// Reads a number of `len` digits, `precision` of them after the decimal
    /// point, from a text that has no white space round it. `None` where
    /// the text does not write such a number.
    pub fn from_chars(text: &Vec<char>, len: usize, precision: usize) -> (r: Option<Numeric>)
        requires
            text@.len() > 0,
            precision <= len,
        ensures
            is_numeric(
                r,
                decimal_value(text@, len as nat, precision as nat),
                len as nat,
                precision as nat,
            ),
    {
        let negative = text[0] == '-';
        let start: usize = if negative {
            1
        } else {
            0
        };
        let ghost unsigned = text@.skip(start as int);
        assert(unsigned =~= if is_negative(text@) {
            text@.drop_first()
        } else {
            text@
        });
        let mut end: usize = text.len();
        proof {
            assert(text@.subrange(start as int, end as int) =~= unsigned);
        }
        if has_dot(text, start) {
            while end > start && text[end - 1] == '0'
                invariant
                    start <= end <= text.len(),
                    strip_zeros(unsigned) == strip_zeros(text@.subrange(start as int, end as int)),
                decreases end,
            {
                assert(text@.subrange(start as int, end as int).drop_last() =~= text@.subrange(
                    start as int,
                    end - 1,
                ));
                end -= 1;
            }
        }
        let ghost s = text@.subrange(start as int, end as int);
        assert(s == digits_text(text@));
        let ghost dot = find_dot(s);
        let ghost whole_digits = whole_part(text@);
        let ghost fraction_digits = fraction_part(text@);
        let ghost all = whole_digits + fraction_digits;
        proof {
            lemma_find_dot(s);
        }
        let mut i: usize = start;
        let mut value: i64 = 0;
        let mut whole: usize = 0;
        let mut fraction: usize = 0;
        let mut in_fraction = false;
        let ghost mut seen: Seq<char> = Seq::empty();
        while i < end
            invariant
                start <= i <= end <= text.len(),
                s == text@.subrange(start as int, end as int),
                s == digits_text(text@),
                dot == find_dot(s),
                0 <= dot <= s.len(),
                forall|k: int| 0 <= k < dot ==> s[k] != '.',
                dot < s.len() ==> s[dot] == '.',
                whole_digits == whole_part(text@),
                fraction_digits == fraction_part(text@),
                all == whole_digits + fraction_digits,
                precision <= len,
                all_digits(seen),
                value == digits_value(seen),
                0 <= value,
                whole <= len - precision,
                fraction <= precision,
                !in_fraction ==> i - start <= dot && seen == s.take(i - start) && whole == i - start
                    && fraction == 0,
                in_fraction ==> dot < i - start && seen == s.take(dot) + s.subrange(
                    dot + 1,
                    i - start,
                ) && whole == dot && fraction == i - start - dot - 1,
            decreases end - i,
        {
            let c = text[i];
            let ghost j = i - start;
            assert(s[j] == c);
            if '0' <= c && c <= '9' {
                proof {
                    if !in_fraction {
                        assert(j < dot);
                        assert(whole_digits.len() == dot);
                    } else {
                        assert(fraction_digits.len() == s.len() - dot - 1);
                    }
                }
                if in_fraction {
                    if fraction == precision {
                        return None;
                    }
                    fraction += 1;
                } else {
                    if whole == len - precision {
                        return None;
                    }
                    whole += 1;
                }
                let digit: i64 = ((c as u8) - 48) as i64;
                proof {
                    lemma_digits_push(seen, c);
                    if all_digits(whole_digits) && all_digits(fraction_digits) {
                        assert(all.take(seen.len() as int + 1) =~= seen.push(c));
                        lemma_digits_prefix(all, seen.len() as int + 1);
                        lemma_pow10_positive((precision - fraction_digits.len()) as nat);
                        assert(digits_value(all) * pow10((precision - fraction_digits.len()) as nat)
                            >= digits_value(all)) by (nonlinear_arith)
                            requires
                                digits_value(all) >= 0,
                                pow10((precision - fraction_digits.len()) as nat) >= 1,
                        ;
                    }
                }
                let shifted = match value.checked_mul(10) {
                    Some(v) => v,
                    None => {
                        return None;
                    },
                };
                value = match shifted.checked_add(digit) {
                    Some(v) => v,
                    None => {
                        return None;
                    },
                };
                proof {
                    seen = seen.push(c);
                    if !in_fraction {
                        assert(seen =~= s.take(j + 1));
                    } else {
                        assert(seen =~= s.take(dot) + s.subrange(dot + 1, j + 1));
                    }
                }
            } else if c == '.' {
                if in_fraction {
                    proof {
                        assert(fraction_digits[j - dot - 1] == c);
                    }
                    return None;
                }
                in_fraction = true;
                proof {
                    assert(dot == j);
                    assert(s.subrange(dot + 1, j + 1) =~= Seq::<char>::empty());
                    assert(seen =~= s.take(dot) + s.subrange(dot + 1, j + 1));
                }
            } else {
                proof {
                    if !in_fraction {
                        assert(j < dot);
                        assert(whole_digits[j] == c);
                    } else {
                        assert(fraction_digits[j - dot - 1] == c);
                    }
                }
                return None;
            }
            i += 1;
        }
        proof {
            if !in_fraction {
                assert(dot == s.len());
            }
            assert(seen =~= all);
            assert(all_digits(whole_digits)) by {
                assert forall|k: int| 0 <= k < whole_digits.len() implies is_digit(
                    #[trigger] whole_digits[k],
                ) by {
                    assert(whole_digits[k] == seen[k]);
                }
            }
            assert(all_digits(fraction_digits)) by {
                assert forall|k: int| 0 <= k < fraction_digits.len() implies is_digit(
                    #[trigger] fraction_digits[k],
                ) by {
                    assert(fraction_digits[k] == seen[whole_digits.len() + k]);
                }
            }
        }
        let mut scale: usize = precision - fraction;
        let ghost magnitude = digits_value(all) * pow10(scale as nat);
        let ghost wanted = decimal_value(text@, len as nat, precision as nat);
        assert(wanted == if magnitude > i64::MAX {
            None
        } else if negative {
            Some(-magnitude)
        } else {
            Some(magnitude)
        });
        if value != 0 {
            while scale > 0
                invariant
                    0 < value,
                    magnitude == value * pow10(scale as nat),
                    magnitude > i64::MAX ==> wanted is None,
                    wanted == decimal_value(text@, len as nat, precision as nat),
                decreases scale,
            {
                proof {
                    lemma_pow10_positive((scale - 1) as nat);
                    assert(value * pow10(scale as nat) == (value * 10) * pow10((scale - 1) as nat))
                        by (nonlinear_arith)
                        requires
                            pow10(scale as nat) == 10 * pow10((scale - 1) as nat),
                    ;
                    assert((value * 10) * pow10((scale - 1) as nat) >= value * 10)
                        by (nonlinear_arith)
                        requires
                            value > 0,
                            pow10((scale - 1) as nat) >= 1,
                    ;
                }
                value = match value.checked_mul(10) {
                    Some(v) => v,
                    None => {
                        return None;
                    },
                };
                scale -= 1;
            }
            assert(magnitude == value) by (nonlinear_arith)
                requires
                    magnitude == value * pow10(scale as nat),
                    pow10(scale as nat) == 1,
            ;
        } else {
            assert(magnitude == 0) by (nonlinear_arith)
                requires
                    magnitude == digits_value(all) * pow10(scale as nat),
                    digits_value(all) == 0,
            ;
        }
        if negative {
            value = -value;
        }
        Some(Numeric::new(value, len, precision))
    }

    /// Reads a number of `len` digits, `precision` of them after the decimal
    /// point, from `s`. White space round the number does not count; there
    /// has to be more in `s` than white space. `None` where what is left
    /// does not write such a number.
    pub fn from_str(s: &str, len: usize, precision: usize) -> (r: Option<Numeric>)
        requires
            trimmed(s@).len() > 0,
            precision <= len,
        ensures
            is_numeric(
                r,
                decimal_value(trimmed(s@), len as nat, precision as nat),
                len as nat,
                precision as nat,
            ),
    {
        let text = trim(s);
        Numeric::from_chars(&text, len, precision)
    }

    /// Reads a number as [`Numeric::from_str`] does, for every `s`, `len`
    /// and `precision`: `None` also where `s` holds nothing but white space
    /// or where `precision` is more than `len`.
    pub fn try_from_str(s: &str, len: usize, precision: usize) -> (r: Option<Numeric>)
        ensures
            is_numeric(
                r,
                if trimmed(s@).len() > 0 && precision <= len {
                    decimal_value(trimmed(s@), len as nat, precision as nat)
                } else {
                    None
                },
                len as nat,
                precision as nat,
            ),
    {
        if precision > len || trim(s).len() == 0 {
            None
        } else {
            Numeric::from_str(s, len, precision)
        }
    }
}

impl PartialEq for Numeric {
    /// Two numbers are equal where they have the same value and the same
    /// precision. The declared number of digits does not count.
    fn eq(&self, other: &Numeric) -> (r: bool) {
        self.value == other.value && self.precision == other.precision
    }
}

impl PartialEqSpecImpl for Numeric {
    open spec fn obeys_eq_spec() -> bool {
        true
    }

    open spec fn eq_spec(&self, other: &Numeric) -> bool {
        self@.value == other@.value && self@.precision == other@.precision
    }
}

/// Whether `x` fits in 64 bits.
pub open spec fn fits(x: int) -> bool {
    i64::MIN <= x <= i64::MAX
}

/// `value` with `digits` more decimal digits after the point.
pub open spec fn scaled(value: int, digits: int) -> int {
    value * pow10(digits as nat)
}

/// Whether `value` can be given `digits` more decimal digits in 64 bits.
pub open spec fn scales(value: int, digits: int) -> bool {
    digits >= 0 && fits(pow10(digits as nat)) && fits(scaled(value, digits))
}

/// The larger of two numbers.
pub open spec fn larger(a: nat, b: nat) -> nat {
    if a >= b {
        a
    } else {
        b
    }
}

/// A higher power of ten is no less.
proof fn lemma_pow10_grows(m: nat, n: nat)
    requires
        m <= n,
    ensures
        pow10(m) <= pow10(n),
    decreases n,
{
    if m < n {
        lemma_pow10_grows(m, (n - 1) as nat);
        lemma_pow10_positive((n - 1) as nat);
    }
}

/// Ten to the power `digits`.
fn power_of_ten(digits: usize) -> (r: i64)
    requires
        fits(pow10(digits as nat)),
    ensures
        r == pow10(digits as nat),
{
    let mut r: i64 = 1;
    let mut i: usize = 0;
    while i < digits
        invariant
            i <= digits,
            r == pow10(i as nat),
            fits(pow10(digits as nat)),
        decreases digits - i,
    {
        proof {
            lemma_pow10_grows((i + 1) as nat, digits as nat);
            lemma_pow10_positive(i as nat);
            assert(pow10((i + 1) as nat) == 10 * pow10(i as nat));
        }
        r = r * 10;
        i += 1;
    }
    r
}

/// `value` with `digits` more decimal digits after the point.
fn scale(value: i64, digits: usize) -> (r: i64)
    requires
        scales(value as int, digits as int),
    ensures
        r == scaled(value as int, digits as int),
{
    value * power_of_ten(digits)
}

/// The larger of two numbers.
fn max(a: usize, b: usize) -> (r: usize)
    ensures
        r == larger(a as nat, b as nat),
{
    if a >= b {
        a
    } else {
        b
    }
}

/// The two integers that an ordering of `a` and `b` compares, the first
/// with the second. Where the precisions differ, the value of lower
/// precision is scaled to the higher and stands first.
pub open spec fn compared(a: NumericView, b: NumericView) -> (int, int) {
    if a.precision == b.precision {
        (a.value, b.value)
    } else if a.precision < b.precision {
        (scaled(a.value, b.precision - a.precision), b.value)
    } else {
        (scaled(b.value, a.precision - b.precision), a.value)
    }
}

/// How `left` stands to `right`.
pub open spec fn order(left: int, right: int) -> Ordering {
    if left < right {
        Ordering::Less
    } else if left == right {
        Ordering::Equal
    } else {
        Ordering::Greater
    }
}

/// Whether the value of lower precision can be scaled to the higher
/// precision in 64 bits.
pub open spec fn aligns(a: NumericView, b: NumericView) -> bool {
    &&& a.precision < b.precision ==> scales(a.value, b.precision - a.precision)
    &&& a.precision > b.precision ==> scales(b.value, a.precision - b.precision)
}

/// The value of the sum of `a` and `b`, at the higher of their precisions.
pub open spec fn sum_value(a: NumericView, b: NumericView) -> int {
    if a.precision == b.precision {
        a.value + b.value
    } else if a.precision < b.precision {
        scaled(a.value, b.precision - a.precision) + b.value
    } else {
        scaled(b.value, a.precision - b.precision) + a.value
    }
}

/// The value of the difference of `a` and `b`, at the higher of their
/// precisions.
pub open spec fn difference_value(a: NumericView, b: NumericView) -> int {
    if a.precision == b.precision {
        a.value - b.value
    } else if a.precision < b.precision {
        scaled(a.value, b.precision - a.precision) - b.value
    } else {
        a.value - scaled(b.value, a.precision - b.precision)
    }
}

/// How many decimal digits a product is shifted by: where the left
/// precision is the lower, the difference of the precisions; where it is
/// the higher, the product of the precisions.
pub open spec fn product_shift(a: NumericView, b: NumericView) -> int {
    if a.precision == b.precision {
        0
    } else if a.precision < b.precision {
        b.precision - a.precision
    } else {
        (a.precision * b.precision) as int
    }
}

/// The value of the product of `a` and `b`: the product of their values,
/// shifted by [`product_shift`].
pub open spec fn product_value(a: NumericView, b: NumericView) -> int {
    scaled(a.value * b.value, product_shift(a, b))
}

/// Whether the product of `a` and `b` can be computed in 64 bits.
pub open spec fn multiplies(a: NumericView, b: NumericView) -> bool {
    if a.precision == b.precision {
        fits(a.value * b.value)
    } else if a.precision < b.precision {
        scales(a.value, b.precision - a.precision) && fits(product_value(a, b))
    } else {
        &&& a.precision * b.precision <= usize::MAX
        &&& fits(a.value * b.value)
        &&& scales(a.value * b.value, (a.precision * b.precision) as int)
    }
}

/// The number with the value `value`, the longer of the lengths of `a` and
/// `b` and the higher of their precisions.
pub open spec fn combined(a: NumericView, b: NumericView, value: int) -> NumericView {
    NumericView {
        value,
        len: larger(a.len, b.len),
        precision: larger(a.precision, b.precision),
    }
}

impl Numeric {
    /// Orders two numbers by their values at the higher of their two
    /// precisions. Where `self` has the higher precision, the result says
    /// how `other` stands to `self`.
    pub fn cmp(&self, other: &Numeric) -> (r: Ordering)
        requires
            aligns(self@, other@),
        ensures
            r == order(compared(self@, other@).0, compared(self@, other@).1),
    {
        let (left, right) = if self.precision == other.precision {
            (self.value, other.value)
        } else if self.precision < other.precision {
            (scale(self.value, other.precision - self.precision), other.value)
        } else {
            (scale(other.value, self.precision - other.precision), self.value)
        };
        if left < right {
            Ordering::Less
        } else if left == right {
            Ordering::Equal
        } else {
            Ordering::Greater
        }
    }
}

impl Add for Numeric {
    type Output = Numeric;

    /// The sum, at the higher of the two precisions.
    fn add(self, rhs: Numeric) -> (r: Numeric)
        ensures
            r@ == combined(self@, rhs@, sum_value(self@, rhs@)),
    {
        let value = if self.precision == rhs.precision {
            self.value + rhs.value
        } else if self.precision < rhs.precision {
            scale(self.value, rhs.precision - self.precision) + rhs.value
        } else {
            scale(rhs.value, self.precision - rhs.precision) + self.value
        };
        Numeric {
            value,
            precision: max(self.precision, rhs.precision),
            len: max(self.len, rhs.len),
        }
    }
}

impl AddSpecImpl for Numeric {
    open spec fn obeys_add_spec() -> bool {
        true
    }

    open spec fn add_req(self, rhs: Numeric) -> bool {
        aligns(self@, rhs@) && fits(sum_value(self@, rhs@))
    }

    closed spec fn add_spec(self, rhs: Numeric) -> Numeric {
        Numeric {
            value: sum_value(self@, rhs@) as i64,
            len: larger(self@.len, rhs@.len) as usize,
            precision: larger(self@.precision, rhs@.precision) as usize,
        }
    }
}

impl Sub for Numeric {
    type Output = Numeric;

    /// The difference, at the higher of the two precisions.
    fn sub(self, rhs: Numeric) -> (r: Numeric)
        ensures
            r@ == combined(self@, rhs@, difference_value(self@, rhs@)),
    {
        let value = if self.precision == rhs.precision {
            self.value - rhs.value
        } else if self.precision < rhs.precision {
            scale(self.value, rhs.precision - self.precision) - rhs.value
        } else {
            self.value - scale(rhs.value, self.precision - rhs.precision)
        };
        Numeric {
            value,
            precision: max(self.precision, rhs.precision),
            len: max(self.len, rhs.len),
        }
    }
}

impl SubSpecImpl for Numeric {
    open spec fn obeys_sub_spec() -> bool {
        true
    }

    open spec fn sub_req(self, rhs: Numeric) -> bool {
        aligns(self@, rhs@) && fits(difference_value(self@, rhs@))
    }

    closed spec fn sub_spec(self, rhs: Numeric) -> Numeric {
        Numeric {
            value: difference_value(self@, rhs@) as i64,
            len: larger(self@.len, rhs@.len) as usize,
            precision: larger(self@.precision, rhs@.precision) as usize,
        }
    }
}

impl Mul for Numeric {
    type Output = Numeric;

    /// The product of the values, shifted as [`product_shift`] says, at the
    /// higher of the two precisions.
    fn mul(self, rhs: Numeric) -> (r: Numeric)
        ensures
            r@ == combined(self@, rhs@, product_value(self@, rhs@)),
    {
        let value = if self.precision == rhs.precision {
            proof {
                assert(scaled(self.value * rhs.value, 0) == self.value * rhs.value);
            }
            self.value * rhs.value
        } else if self.precision < rhs.precision {
            proof {
                let p = pow10((rhs.precision - self.precision) as nat);
                assert((self.value * p) * rhs.value == (self.value * rhs.value) * p)
                    by (nonlinear_arith);
            }
            scale(self.value, rhs.precision - self.precision) * rhs.value
        } else {
            scale(self.value * rhs.value, self.precision * rhs.precision)
        };
        Numeric {
            value,
            precision: max(self.precision, rhs.precision),
            len: max(self.len, rhs.len),
        }
    }
}

impl MulSpecImpl for Numeric {
    open spec fn obeys_mul_spec() -> bool {
        true
    }

    open spec fn mul_req(self, rhs: Numeric) -> bool {
        multiplies(self@, rhs@)
    }

    closed spec fn mul_spec(self, rhs: Numeric) -> Numeric {
        Numeric {
            value: product_value(self@, rhs@) as i64,
            len: larger(self@.len, rhs@.len) as usize,
            precision: larger(self@.precision, rhs@.precision) as usize,
        }
    }
}

} // verus!
