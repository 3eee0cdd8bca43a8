//! Telling whether a text is a decimal number.
//!
//! A decimal number is an optional sign, digits with at most one point among
//! them, and optionally an exponent: `e` or `E`, an optional sign and digits.
//! At least one digit stands before the exponent. Words such as `inf` and
//! `NaN` are no decimal numbers. What value a number has is not decided here.

use vstd::prelude::*;
use vstd::string::*;
use vstd::std_specs::iter::IteratorSpec;

verus! {

/// Whether a character is white space: one of the 25 characters that
/// Unicode gives the property `White_Space`.
pub open spec fn is_whitespace(c: char) -> bool {
    let code = c as u32;
    ||| 0x09 <= code <= 0x0D
    ||| code == 0x20
    ||| code == 0x85
    ||| code == 0xA0
    ||| code == 0x1680
    ||| 0x2000 <= code <= 0x200A
    ||| code == 0x2028
    ||| code == 0x2029
    ||| code == 0x202F
    ||| code == 0x205F
    ||| code == 0x3000
}

/// Whether a character is one of the digits `0` to `9`.
pub open spec fn is_digit(c: char) -> bool {
    0x30 <= c as u32 <= 0x39
}

/// Whether a character is `+` or `-`.
pub open spec fn is_sign(c: char) -> bool {
    c == '+' || c == '-'
}

/// Whether a character is `e` or `E`.
pub open spec fn is_exponent_mark(c: char) -> bool {
    c == 'e' || c == 'E'
}

/// Where the white space that starts at `from` ends.
pub open spec fn whitespace_end(s: Seq<char>, from: int) -> int
    decreases s.len() - from,
{
    if 0 <= from < s.len() && is_whitespace(s[from]) {
        whitespace_end(s, from + 1)
    } else {
        from
    }
}

/// Where the white space that ends at `to` starts.
pub open spec fn whitespace_start(s: Seq<char>, to: int) -> int
    decreases to,
{
    if 0 < to <= s.len() && is_whitespace(s[to - 1]) {
        whitespace_start(s, to - 1)
    } else {
        to
    }
}

/// A text without the white space at its start and at its end.
pub open spec fn trimmed(s: Seq<char>) -> Seq<char> {
    let from = whitespace_end(s, 0);
    let to = whitespace_start(s, s.len() as int);
    if from < to {
        s.subrange(from, to)
    } else {
        Seq::empty()
    }
}

/// Where the digits that start at `from` end.
pub open spec fn digits_end(s: Seq<char>, from: int) -> int
    decreases s.len() - from,
{
    if 0 <= from < s.len() && is_digit(s[from]) {
        digits_end(s, from + 1)
    } else {
        from
    }
}

/// Whether an exponent stands at `at` and runs to the end of the text: the
/// mark, an optional sign, and one digit or more.
pub open spec fn is_exponent(s: Seq<char>, at: int) -> bool {
    let digits = if at + 1 < s.len() && is_sign(s[at + 1]) {
        at + 2
    } else {
        at + 1
    };
    &&& 0 <= at < s.len()
    &&& is_exponent_mark(s[at])
    &&& digits < s.len()
    &&& digits_end(s, digits) == s.len()
}

/// Whether a text is a decimal number.
///
/// After the sign come the digits before the point, which end at `point`. If
/// a point stands there, the digits after it follow. Both runs together hold
/// a digit, and what is left is nothing or an exponent.
pub open spec fn is_decimal_number(s: Seq<char>) -> bool {
    let start: int = if s.len() > 0 && is_sign(s[0]) {
        1
    } else {
        0
    };
    let point = digits_end(s, start);
    let has_point = point < s.len() && s[point] == '.';
    let end = if has_point {
        digits_end(s, point + 1)
    } else {
        point
    };
    let digits = if has_point {
        (point - start) + (end - point - 1)
    } else {
        point - start
    };
    &&& digits > 0
    &&& (end == s.len() || is_exponent(s, end))
}

/// A run of digits lies within the text, holds digits only, and ends at the
/// end of the text or before a character that is no digit.
pub proof fn lemma_digits_end(s: Seq<char>, from: int)
    requires
        0 <= from <= s.len(),
    ensures
        from <= digits_end(s, from) <= s.len(),
        forall|i: int| from <= i < digits_end(s, from) ==> is_digit(#[trigger] s[i]),
        digits_end(s, from) < s.len() ==> !is_digit(s[digits_end(s, from)]),
    decreases s.len() - from,
{
    if from < s.len() && is_digit(s[from]) {
        lemma_digits_end(s, from + 1);
    }
}

/// A decimal number is not empty, holds a digit, and holds nothing but
/// digits, signs, a point and the mark of an exponent. So no word is one.
pub proof fn lemma_decimal_number_is_made_of(s: Seq<char>)
    requires
        is_decimal_number(s),
    ensures
        s.len() > 0,
        exists|i: int| 0 <= i < s.len() && is_digit(#[trigger] s[i]),
        forall|i: int|
            0 <= i < s.len() ==> {
                let c = #[trigger] s[i];
                is_digit(c) || is_sign(c) || c == '.' || is_exponent_mark(c)
            },
{
    let start: int = if s.len() > 0 && is_sign(s[0]) {
        1
    } else {
        0
    };
    lemma_digits_end(s, start);
    let point = digits_end(s, start);
    let has_point = point < s.len() && s[point] == '.';
    if has_point {
        lemma_digits_end(s, point + 1);
    }
    let end = if has_point {
        digits_end(s, point + 1)
    } else {
        point
    };
    if point > start {
        assert(is_digit(s[start]));
    } else {
        assert(is_digit(s[point + 1]));
    }
    if end < s.len() {
        let digits = if end + 1 < s.len() && is_sign(s[end + 1]) {
            end + 2
        } else {
            end + 1
        };
        lemma_digits_end(s, digits);
    }
}

/// One digit or more, and nothing else, is a decimal number.
pub proof fn lemma_digits_are_a_decimal_number(s: Seq<char>)
    requires
        s.len() > 0,
        forall|i: int| 0 <= i < s.len() ==> is_digit(#[trigger] s[i]),
    ensures
        is_decimal_number(s),
{
    lemma_digits_end(s, 0);
    assert(!is_sign(s[0]));
    if digits_end(s, 0) < s.len() {
        assert(is_digit(s[digits_end(s, 0)]));
    }
}

/// A trimmed text neither starts nor ends with white space, and a text
/// without white space at either end is its own trimmed text.
pub proof fn lemma_trimmed_has_no_whitespace_at_its_ends(s: Seq<char>)
    ensures
        trimmed(s).len() > 0 ==> !is_whitespace(trimmed(s).first()) && !is_whitespace(
            trimmed(s).last(),
        ),
        s.len() > 0 && !is_whitespace(s.first()) && !is_whitespace(s.last()) ==> trimmed(s) == s,
{
    lemma_whitespace_end(s, 0);
    lemma_whitespace_start(s, s.len() as int);
    if s.len() > 0 && !is_whitespace(s.first()) && !is_whitespace(s.last()) {
        assert(s.subrange(0, s.len() as int) =~= s);
    }
}

/// The white space that starts at `from` lies within the text and ends at
/// the end of the text or before a character that is no white space.
proof fn lemma_whitespace_end(s: Seq<char>, from: int)
    requires
        0 <= from <= s.len(),
    ensures
        from <= whitespace_end(s, from) <= s.len(),
        whitespace_end(s, from) < s.len() ==> !is_whitespace(s[whitespace_end(s, from)]),
    decreases s.len() - from,
{
    if from < s.len() && is_whitespace(s[from]) {
        lemma_whitespace_end(s, from + 1);
    }
}

/// The white space that ends at `to` lies within the text and starts at the
/// start of the text or after a character that is no white space.
proof fn lemma_whitespace_start(s: Seq<char>, to: int)
    requires
        0 <= to <= s.len(),
    ensures
        0 <= whitespace_start(s, to) <= to,
        whitespace_start(s, to) > 0 ==> !is_whitespace(s[whitespace_start(s, to) - 1]),
    decreases to,
{
    if 0 < to && is_whitespace(s[to - 1]) {
        lemma_whitespace_start(s, to - 1);
    }
}

/// Tells whether a character is white space.
pub fn char_is_whitespace(c: char) -> (r: bool)
    ensures
        r == is_whitespace(c),
{
    let code: u32 = c as u32;
    (0x09 <= code && code <= 0x0D) || code == 0x20 || code == 0x85 || code == 0xA0 || code
        == 0x1680 || (0x2000 <= code && code <= 0x200A) || code == 0x2028 || code == 0x2029
        || code == 0x202F || code == 0x205F || code == 0x3000
}

fn char_is_digit(c: char) -> (r: bool)
    ensures
        r == is_digit(c),
{
    let code: u32 = c as u32;
    0x30 <= code && code <= 0x39
}

fn char_is_sign(c: char) -> (r: bool)
    ensures
        r == is_sign(c),
{
    c == '+' || c == '-'
}

/// Collects the characters of a text.
fn characters(text: &str) -> (chars: Vec<char>)
    ensures
        chars@ == text@,
{
    broadcast use group_string_axioms;

    let mut rest = text.chars();
    let mut chars: Vec<char> = Vec::new();
    loop
        invariant
            chars@ + rest.remaining() == text@,
        decreases text@.len() - chars@.len(),
    {
        let ghost before = rest.remaining();
        match rest.next() {
            Some(c) => {
                chars.push(c);
                assert(chars@ + rest.remaining() == text@) by {
                    assert(before == seq![c] + before.drop_first());
                    assert(chars@ + rest.remaining() =~= text@);
                }
            },
            None => {
                assert(chars@ =~= text@);
                return chars;
            },
        }
    }
}

/// Copies the characters of a text without the white space at its ends.
fn trim(chars: &Vec<char>) -> (kept: Vec<char>)
    ensures
        kept@ == trimmed(chars@),
{
    let len = chars.len();
    let mut from: usize = 0;
    while from < len && char_is_whitespace(chars[from])
        invariant
            len == chars.len(),
            from <= len,
            whitespace_end(chars@, 0) == whitespace_end(chars@, from as int),
        decreases len - from,
    {
        from += 1;
    }
    let mut to: usize = len;
    while to > 0 && char_is_whitespace(chars[to - 1])
        invariant
            len == chars.len(),
            to <= len,
            whitespace_start(chars@, len as int) == whitespace_start(chars@, to as int),
        decreases to,
    {
        to -= 1;
    }
    let mut kept: Vec<char> = Vec::new();
    if from < to {
        let mut i: usize = from;
        while i < to
            invariant
                len == chars.len(),
                from <= i <= to <= len,
                kept@ == chars@.subrange(from as int, i as int),
            decreases to - i,
        {
            kept.push(chars[i]);
            assert(kept@ =~= chars@.subrange(from as int, i + 1));
            i += 1;
        }
    }
    kept
}

/// Finds where the digits that start at `from` end.
fn scan_digits(chars: &Vec<char>, from: usize) -> (end: usize)
    requires
        from <= chars.len(),
    ensures
        end == digits_end(chars@, from as int),
        from <= end <= chars.len(),
{
    let len = chars.len();
    let mut end: usize = from;
    while end < len && char_is_digit(chars[end])
        invariant
            len == chars.len(),
            from <= end <= len,
            digits_end(chars@, from as int) == digits_end(chars@, end as int),
        decreases len - end,
    {
        end += 1;
    }
    end
}

/// Tells whether the characters are a decimal number.
fn chars_are_decimal_number(chars: &Vec<char>) -> (r: bool)
    ensures
        r == is_decimal_number(chars@),
{
    let len = chars.len();
    let start: usize = if len > 0 && char_is_sign(chars[0]) {
        1
    } else {
        0
    };
    let point = scan_digits(chars, start);
    let has_point = point < len && chars[point] == '.';
    let end = if has_point {
        scan_digits(chars, point + 1)
    } else {
        point
    };
    let digits = if has_point {
        (point - start) + (end - point - 1)
    } else {
        point - start
    };
    if digits == 0 {
        return false;
    }
    if end == len {
        return true;
    }
    if !(chars[end] == 'e' || chars[end] == 'E') {
        return false;
    }
    let exponent: usize = if end + 1 < len && char_is_sign(chars[end + 1]) {
        end + 2
    } else {
        end + 1
    };
    exponent < len && scan_digits(chars, exponent) == len
}

/// Tells whether a text, without the white space at its ends, is a decimal
/// number.
pub fn reads_as_decimal_number(text: &str) -> (r: bool)
    ensures
        r == is_decimal_number(trimmed(text@)),
{
    let chars = characters(text);
    let kept = trim(&chars);
    chars_are_decimal_number(&kept)
}

} // verus!
