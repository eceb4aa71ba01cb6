//! Helpers on text: characters of a string, ASCII case folding, decimal digits.

use vstd::prelude::*;

verus! {

/// The lower-case form of an ASCII letter; every other character is itself.
pub open spec fn lower(c: char) -> char {
    if 'A' <= c && c <= 'Z' {
        ((c as u8) + 32) as char
    } else {
        c
    }
}

/// Whether `text`, with its ASCII letters folded to lower case, reads `word`.
pub open spec fn folds_to(text: Seq<char>, word: Seq<char>) -> bool {
    &&& text.len() == word.len()
    &&& forall|i: int| 0 <= i < text.len() ==> lower(#[trigger] text[i]) == word[i]
}

/// Folds an ASCII upper-case letter to lower case.
pub fn to_lower(c: char) -> (r: char)
    ensures
        r == lower(c),
{
    if 'A' <= c && c <= 'Z' {
        ((c as u8) + 32) as char
    } else {
        c
    }
}

/// The characters of `s`, in order.
pub fn chars_of(s: &str) -> (v: Vec<char>)
    ensures
        v@ == s@,
{
    let mut v: Vec<char> = Vec::new();
    for c in it: s.chars()
        invariant
            it.seq() == s@,
            v@ == it.seq().take(it.index() as int),
    {
        v.push(c);
    }
    v
}

/// Compares `text` with `word`, ignoring the case of ASCII letters in `text`.
pub fn matches_word(text: &Vec<char>, word: &str) -> (r: bool)
    ensures
        r == folds_to(text@, word@),
{
    let mut i: usize = 0;
    for c in it: word.chars()
        invariant
            it.seq() == word@,
            i == it.index(),
            i <= text.len(),
            forall|j: int| 0 <= j < i ==> lower(#[trigger] text@[j]) == word@[j],
    {
        if i >= text.len() || to_lower(text[i]) != c {
            return false;
        }
        i += 1;
    }
    i == text.len()
}

/// The character that writes the decimal digit `d`.
pub open spec fn digit_char(d: nat) -> char
    recommends
        d < 10,
{
    ((48 + d) as u8) as char
}

/// The decimal numeral of `n`, without leading zeros.
pub open spec fn decimal(n: nat) -> Seq<char>
    decreases n,
{
    if n < 10 {
        seq![digit_char(n)]
    } else {
        decimal(n / 10).push(digit_char(n % 10))
    }
}

/// The one-character string that writes the decimal digit `d`.
pub fn digit_str(d: u64) -> (r: &'static str)
    requires
        d < 10,
    ensures
        r@ == seq![digit_char(d as nat)],
{
    proof {
        reveal_strlit("0");
        reveal_strlit("1");
        reveal_strlit("2");
        reveal_strlit("3");
        reveal_strlit("4");
        reveal_strlit("5");
        reveal_strlit("6");
        reveal_strlit("7");
        reveal_strlit("8");
        reveal_strlit("9");
    }
    let r = if d == 0 {
        "0"
    } else if d == 1 {
        "1"
    } else if d == 2 {
        "2"
    } else if d == 3 {
        "3"
    } else if d == 4 {
        "4"
    } else if d == 5 {
        "5"
    } else if d == 6 {
        "6"
    } else if d == 7 {
        "7"
    } else if d == 8 {
        "8"
    } else {
        "9"
    };
    assert(r@ =~= seq![digit_char(d as nat)]);
    r
}

/// Writes `n` as a decimal numeral.
pub fn decimal_string(n: u64) -> (s: String)
    ensures
        s@ == decimal(n as nat),
    decreases n,
{
    if n < 10 {
        String::from_str(digit_str(n))
    } else {
        let mut s = decimal_string(n / 10);
        s.append(digit_str(n % 10));
        assert(s@ =~= decimal(n as nat));
        s
    }
}

/// What `char::to_uppercase` yields for `c`: its upper-case mapping, one or
/// more characters long.
pub uninterp spec fn upper_case(c: char) -> Seq<char>;

/// `text` with its first character replaced by that character's upper-case
/// mapping. The empty text is left as it is.
pub open spec fn capitalized(text: Seq<char>) -> Seq<char> {
    if text.len() == 0 {
        text
    } else {
        upper_case(text[0]) + text.subrange(1, text.len() as int)
    }
}

/// `text` with its first character, if it has one, replaced by `head`.
pub open spec fn with_head(text: Seq<char>, head: Seq<char>) -> Seq<char> {
    if text.len() == 0 {
        head
    } else {
        head + text.subrange(1, text.len() as int)
    }
}

/// Calls `char::to_uppercase` and collects what it yields. Trusted: the
/// result is the upper-case mapping that the standard library gives for `c`,
/// which depends on `c` alone.
#[verifier::external_body]
fn uppercase(c: char) -> (r: String)
    ensures
        r@ == upper_case(c),
{
    c.to_uppercase().collect()
}

/// Puts `head` in the place of the first character of `text`.
pub fn replace_head(text: &str, head: String) -> (r: String)
    ensures
        r@ == with_head(text@, head@),
{
    let n = text.unicode_len();
    if n == 0 {
        head
    } else {
        let mut r = head;
        r.append(text.substring_char(1, n));
        r
    }
}

/// Upper-cases the first character of `text`.
pub fn capitalize(text: &str) -> (r: String)
    ensures
        r@ == capitalized(text@),
{
    if text.unicode_len() == 0 {
        String::new()
    } else {
        replace_head(text, uppercase(text.get_char(0)))
    }
}

/// What `char::is_whitespace` says of `c`: whether it has the Unicode
/// property White_Space.
pub uninterp spec fn is_space(c: char) -> bool;

/// `char::is_whitespace`. Trusted: its result depends on the character
/// alone.
pub assume_specification[ char::is_whitespace ](c: char) -> (r: bool)
    ensures
        r == is_space(c),
;

/// `s` without the white space at its start.
pub open spec fn trim_start(s: Seq<char>) -> Seq<char>
    decreases s.len(),
{
    if s.len() > 0 && is_space(s[0]) {
        trim_start(s.drop_first())
    } else {
        s
    }
}

/// `s` without the white space at its end.
pub open spec fn trim_end(s: Seq<char>) -> Seq<char>
    decreases s.len(),
{
    if s.len() > 0 && is_space(s.last()) {
        trim_end(s.drop_last())
    } else {
        s
    }
}

/// `s` without the white space at its start and at its end.
pub open spec fn trimmed(s: Seq<char>) -> Seq<char> {
    trim_end(trim_start(s))
}

/// The characters of `s` without the white space at its start and end.
pub fn trim(s: &str) -> (r: Vec<char>)
    ensures
        r@ == trimmed(s@),
{
    let text = chars_of(s);
    let mut start: usize = 0;
    assert(text@.skip(0) =~= text@);
    while start < text.len() && text[start].is_whitespace()
        invariant
            start <= text.len(),
            trim_start(text@) == trim_start(text@.skip(start as int)),
        decreases text.len() - start,
    {
        assert(text@.skip(start as int).drop_first() =~= text@.skip(start + 1));
        start += 1;
    }
    let ghost rest = text@.skip(start as int);
    assert(trim_start(text@) == rest);
    let mut end: usize = text.len();
    while end > start && text[end - 1].is_whitespace()
        invariant
            start <= end <= text.len(),
            rest == text@.skip(start as int),
            trim_end(rest) == trim_end(text@.subrange(start as int, end as int)),
        decreases end,
    {
        assert(text@.subrange(start as int, end as int).drop_last() =~= text@.subrange(
            start as int,
            end - 1,
        ));
        end -= 1;
    }
    assert(text@.subrange(start as int, text.len() as int) =~= rest);
    let mut r: Vec<char> = Vec::new();
    let mut i: usize = start;
    while i < end
        invariant
            start <= i <= end <= text.len(),
            r@ == text@.subrange(start as int, i as int),
        decreases end - i,
    {
        r.push(text[i]);
        assert(r@ =~= text@.subrange(start as int, i + 1));
        i += 1;
    }
    r
}

} // verus!
