//! Reading a length and a yes-or-no answer out of a line of input.

use crate::strength::{is_decimal_digit, is_digit_char};
use crate::text::{chars_of, same_text};
use vstd::prelude::*;

verus! {

/// What `str::trim` leaves of a string: the part between its leading and its
/// trailing whitespace, in Unicode's sense of the word.
pub uninterp spec fn trimmed(s: Seq<char>) -> Seq<char>;

/// What `str::to_lowercase` makes of a string: its lowercase equivalent, in
/// Unicode's sense of the word.
pub uninterp spec fn lowercased(s: Seq<char>) -> Seq<char>;

/// `str::trim`: the result depends on the string alone and is given the name
/// `trimmed`; nothing more is claimed of it.
#[verifier::external_body]
fn trim_text(s: &str) -> (inner: &str)
    ensures
        inner@ == trimmed(s@),
{
    s.trim()
}

/// `str::to_lowercase`: the result depends on the string alone and is given
/// the name `lowercased`; nothing more is claimed of it.
#[verifier::external_body]
fn lowercase_text(s: &str) -> (lower: String)
    ensures
        lower@ == lowercased(s@),
{
    s.to_lowercase()
}

/// The number that a decimal digit stands for.
pub open spec fn digit_value(c: char) -> nat {
    (c as u32 - '0' as u32) as nat
}

/// The number that a run of decimal digits writes.
pub open spec fn decimal_value(digits: Seq<char>) -> nat
    decreases digits.len(),
{
    if digits.len() == 0 {
        0
    } else {
        decimal_value(digits.drop_last()) * 10 + digit_value(digits.last())
    }
}

/// Every character is a decimal digit.
pub open spec fn all_digits(s: Seq<char>) -> bool {
    forall|i: int| 0 <= i < s.len() ==> is_decimal_digit(#[trigger] s[i])
}

/// `s` without a plus sign in front of it.
pub open spec fn unsigned_part(s: Seq<char>) -> Seq<char> {
    if s.len() > 0 && s[0] == '+' {
        s.drop_first()
    } else {
        s
    }
}

/// The non-negative integer that `s` writes: an optional plus sign, then
/// one or more decimal digits and nothing else, with a value that a `usize`
/// can hold. Anything else writes none.
pub open spec fn parsed_decimal(s: Seq<char>) -> Option<usize> {
    let digits = unsigned_part(s);
    if digits.len() > 0 && all_digits(digits) && decimal_value(digits) <= usize::MAX {
        Some(decimal_value(digits) as usize)
    } else {
        None
    }
}

/// The length that a line of input asks for, if it asks for one.
pub open spec fn length_of_line(line: Seq<char>) -> Option<usize> {
    parsed_decimal(trimmed(line))
}

/// What a trimmed and lowercased answer says: yes, no, or neither.
pub open spec fn answer_of(normalised: Seq<char>) -> Option<bool> {
    if normalised == "yes"@ || normalised == "y"@ {
        Some(true)
    } else if normalised == "no"@ || normalised == "n"@ {
        Some(false)
    } else {
        None
    }
}

/// What a line of input answers to a yes-or-no question.
pub open spec fn answer_of_line(line: Seq<char>) -> Option<bool> {
    answer_of(lowercased(trimmed(line)))
}

/// A run of digits writes a number no smaller than any of its prefixes does.
pub proof fn decimal_value_grows(digits: Seq<char>, n: int)
    requires
        0 <= n <= digits.len(),
    ensures
        decimal_value(digits.take(n)) <= decimal_value(digits),
    decreases digits.len(),
{
    if n == digits.len() {
        assert(digits.take(n) =~= digits);
    } else {
        assert(digits.drop_last().take(n) =~= digits.take(n));
        decimal_value_grows(digits.drop_last(), n);
    }
}

/// Reads a non-negative integer: an optional plus sign, then decimal digits
/// only. `None` where the text is no such number or the number does not fit.
pub fn parse_decimal(s: &str) -> (value: Option<usize>)
    ensures
        value == parsed_decimal(s@),
{
    let chars = chars_of(s);
    let start: usize = if chars.len() > 0 && chars[0] == '+' {
        1
    } else {
        0
    };
    let ghost digits = unsigned_part(s@);
    assert(digits =~= chars@.subrange(start as int, chars@.len() as int));
    if start == chars.len() {
        return None;
    }
    let mut acc: usize = 0;
    let mut i: usize = start;
    while i < chars.len()
        invariant
            start <= i <= chars.len(),
            digits == unsigned_part(s@),
            digits == chars@.subrange(start as int, chars@.len() as int),
            all_digits(digits.take(i - start)),
            acc == decimal_value(digits.take(i - start)),
        decreases chars.len() - i,
    {
        let c = chars[i];
        let ghost next = digits.take(i - start + 1);
        proof {
            assert(digits[i - start] == c);
            assert(next.drop_last() =~= digits.take(i - start));
            decimal_value_grows(digits, i - start + 1);
        }
        if !is_digit_char(c) {
            return None;
        }
        let d: usize = (c as u32 - '0' as u32) as usize;
        assert(decimal_value(next) == acc * 10 + d);
        let scaled = match acc.checked_mul(10) {
            Some(v) => v,
            None => {
                return None;
            },
        };
        acc = match scaled.checked_add(d) {
            Some(v) => v,
            None => {
                return None;
            },
        };
        i += 1;
    }
    assert(digits.take(i - start) =~= digits);
    Some(acc)
}

/// Decides a trimmed and lowercased answer: `yes` or `y` is yes, `no` or `n`
/// is no, anything else is no answer.
pub fn decide_yes_no(normalised: &str) -> (answer: Option<bool>)
    ensures
        answer == answer_of(normalised@),
{
    if same_text(normalised, "yes") || same_text(normalised, "y") {
        Some(true)
    } else if same_text(normalised, "no") || same_text(normalised, "n") {
        Some(false)
    } else {
        None
    }
}

/// The length that a line of input asks for: the line without the
/// whitespace around it, read as a non-negative integer.
pub fn parse_length(line: &str) -> (length: Option<usize>)
    ensures
        length == length_of_line(line@),
{
    parse_decimal(trim_text(line))
}

/// The answer that a line of input gives to a yes-or-no question: the line
/// without the whitespace around it, in lowercase, decided as an answer.
pub fn parse_yes_no(line: &str) -> (answer: Option<bool>)
    ensures
        answer == answer_of_line(line@),
{
    let lower = lowercase_text(trim_text(line));
    decide_yes_no(lower.as_str())
}

} // verus!
