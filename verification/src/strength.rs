//! The strength label of a password: a rule over its length and the
//! categories of character that occur in it.

use crate::charset::SPECIAL_CHARACTERS;
use crate::text::chars_of;
use vstd::prelude::*;

verus! {

/// Whether `c` has the Unicode property Uppercase, as `char::is_uppercase`
/// reports it.
pub uninterp spec fn unicode_uppercase(c: char) -> bool;

/// Whether `c` has the Unicode property Lowercase, as `char::is_lowercase`
/// reports it.
pub uninterp spec fn unicode_lowercase(c: char) -> bool;

/// `char::is_uppercase`: the answer depends on the character alone and is
/// given the name `unicode_uppercase`. Of the ASCII characters exactly the
/// letters `A` to `Z` have the property; nothing more is claimed.
#[verifier::external_body]
fn is_uppercase(c: char) -> (yes: bool)
    ensures
        yes == unicode_uppercase(c),
        c <= '\u{7f}' ==> yes == ('A' <= c && c <= 'Z'),
{
    c.is_uppercase()
}

/// `char::is_lowercase`: the answer depends on the character alone and is
/// given the name `unicode_lowercase`. Of the ASCII characters exactly the
/// letters `a` to `z` have the property; nothing more is claimed.
#[verifier::external_body]
fn is_lowercase(c: char) -> (yes: bool)
    ensures
        yes == unicode_lowercase(c),
        c <= '\u{7f}' ==> yes == ('a' <= c && c <= 'z'),
{
    c.is_lowercase()
}

/// The coarse quality label of a password.
#[derive(Clone, Copy, Debug, PartialEq, Eq, Structural)]
pub enum Strength {
    Weak,
    Medium,
    Strong,
}

impl Strength {
    /// The label as text.
    pub open spec fn label_text(self) -> Seq<char> {
        match self {
            Strength::Weak => "Weak"@,
            Strength::Medium => "Medium"@,
            Strength::Strong => "Strong"@,
        }
    }

    /// The label as text: `"Weak"`, `"Medium"` or `"Strong"`.
    pub fn label(self) -> (text: &'static str)
        ensures
            text@ == self.label_text(),
    {
        match self {
            Strength::Weak => "Weak",
            Strength::Medium => "Medium",
            Strength::Strong => "Strong",
        }
    }
}

/// An uppercase letter: among the ASCII characters `A` to `Z`, beyond them
/// whatever has the Unicode property.
pub open spec fn is_uppercase_letter(c: char) -> bool {
    if c <= '\u{7f}' {
        'A' <= c <= 'Z'
    } else {
        unicode_uppercase(c)
    }
}

/// A lowercase letter: among the ASCII characters `a` to `z`, beyond them
/// whatever has the Unicode property.
pub open spec fn is_lowercase_letter(c: char) -> bool {
    if c <= '\u{7f}' {
        'a' <= c <= 'z'
    } else {
        unicode_lowercase(c)
    }
}

/// One of the ten decimal digits `0` to `9`.
pub open spec fn is_decimal_digit(c: char) -> bool {
    '0' <= c <= '9'
}

/// One of the special symbols.
pub open spec fn is_special(c: char) -> bool {
    SPECIAL_CHARACTERS@.contains(c)
}

/// Some character of `password` is an uppercase letter.
pub open spec fn has_uppercase(password: Seq<char>) -> bool {
    exists|i: int| 0 <= i < password.len() && is_uppercase_letter(#[trigger] password[i])
}

/// Some character of `password` is a lowercase letter.
pub open spec fn has_lowercase(password: Seq<char>) -> bool {
    exists|i: int| 0 <= i < password.len() && is_lowercase_letter(#[trigger] password[i])
}

/// Some character of `password` is a decimal digit.
pub open spec fn has_numbers(password: Seq<char>) -> bool {
    exists|i: int| 0 <= i < password.len() && is_decimal_digit(#[trigger] password[i])
}

/// Some character of `password` is a special symbol.
pub open spec fn has_special(password: Seq<char>) -> bool {
    exists|i: int| 0 <= i < password.len() && is_special(#[trigger] password[i])
}

/// The rule, first match first: `Strong` from length 12 with all four
/// categories present; `Medium` from length 8 with an uppercase letter, a
/// digit or a special symbol present; `Weak` otherwise.
pub open spec fn strength_rule(
    length: nat,
    has_uppercase: bool,
    has_lowercase: bool,
    has_numbers: bool,
    has_special: bool,
) -> Strength {
    if length >= 12 && has_uppercase && has_lowercase && has_numbers && has_special {
        Strength::Strong
    } else if length >= 8 && (has_uppercase || has_numbers || has_special) {
        Strength::Medium
    } else {
        Strength::Weak
    }
}

/// The strength of a password: the rule applied to its number of characters
/// and to the categories that occur in it.
pub open spec fn strength_of(password: Seq<char>) -> Strength {
    strength_rule(
        password.len(),
        has_uppercase(password),
        has_lowercase(password),
        has_numbers(password),
        has_special(password),
    )
}

/// The label is a function of the password's characters alone: two passwords
/// that hold the same characters have the same strength and the same label.
pub proof fn same_password_same_strength(first: &str, second: &str)
    requires
        first@ == second@,
    ensures
        strength_of(first@) == strength_of(second@),
        strength_of(first@).label_text() == strength_of(second@).label_text(),
{
}

/// The three labels differ, so the text of a label tells the strength.
pub proof fn label_tells_strength(a: Strength, b: Strength)
    ensures
        a.label_text() == b.label_text() <==> a == b,
{
    reveal_strlit("Weak");
    reveal_strlit("Medium");
    reveal_strlit("Strong");
    assert("Weak"@[0] == 'W' && "Medium"@[0] == 'M' && "Strong"@[0] == 'S');
}

/// A category is present after one more character exactly if it was present
/// before or the new character belongs to it.
pub proof fn presence_after_push(before: Seq<char>, c: char)
    ensures
        has_uppercase(before.push(c)) == (has_uppercase(before) || is_uppercase_letter(c)),
        has_lowercase(before.push(c)) == (has_lowercase(before) || is_lowercase_letter(c)),
        has_numbers(before.push(c)) == (has_numbers(before) || is_decimal_digit(c)),
        has_special(before.push(c)) == (has_special(before) || is_special(c)),
{
    let after = before.push(c);
    let last = before.len() as int;
    assert(after[last] == c);
    assert forall|j: int| 0 <= j < before.len() implies before[j] == after[j] by {}
}

/// Whether `c` is one of the digits `0` to `9`.
pub fn is_digit_char(c: char) -> (yes: bool)
    ensures
        yes == is_decimal_digit(c),
{
    '0' <= c && c <= '9'
}

/// Whether `c` occurs among `symbols`.
pub fn occurs_in(symbols: &Vec<char>, c: char) -> (yes: bool)
    ensures
        yes == symbols@.contains(c),
{
    let mut i: usize = 0;
    while i < symbols.len()
        invariant
            i <= symbols.len(),
            forall|j: int| 0 <= j < i ==> symbols@[j] != c,
        decreases symbols.len() - i,
    {
        if symbols[i] == c {
            return true;
        }
        i += 1;
    }
    false
}

/// Applies the rule to a length and the four category flags.
pub fn classify(
    length: usize,
    has_uppercase: bool,
    has_lowercase: bool,
    has_numbers: bool,
    has_special: bool,
) -> (strength: Strength)
    ensures
        strength == strength_rule(
            length as nat,
            has_uppercase,
            has_lowercase,
            has_numbers,
            has_special,
        ),
{
    if length >= 12 && has_uppercase && has_lowercase && has_numbers && has_special {
        Strength::Strong
    } else if length >= 8 && (has_uppercase || has_numbers || has_special) {
        Strength::Medium
    } else {
        Strength::Weak
    }
}

/// The strength of `password`.
pub fn password_strength(password: &str) -> (strength: Strength)
    ensures
        strength == strength_of(password@),
{
    let chars = chars_of(password);
    let symbols = chars_of(SPECIAL_CHARACTERS);
    let mut upper = false;
    let mut lower = false;
    let mut numbers = false;
    let mut special = false;
    let mut i: usize = 0;
    while i < chars.len()
        invariant
            i <= chars.len(),
            symbols@ == SPECIAL_CHARACTERS@,
            upper == has_uppercase(chars@.take(i as int)),
            lower == has_lowercase(chars@.take(i as int)),
            numbers == has_numbers(chars@.take(i as int)),
            special == has_special(chars@.take(i as int)),
        decreases chars.len() - i,
    {
        let c = chars[i];
        let c_upper = is_uppercase(c);
        let c_lower = is_lowercase(c);
        let c_digit = is_digit_char(c);
        let c_special = occurs_in(&symbols, c);
        proof {
            assert(chars@.take(i + 1) =~= chars@.take(i as int).push(c));
            presence_after_push(chars@.take(i as int), c);
        }
        upper = upper || c_upper;
        lower = lower || c_lower;
        numbers = numbers || c_digit;
        special = special || c_special;
        i += 1;
    }
    assert(chars@.take(i as int) =~= password@);
    classify(chars.len(), upper, lower, numbers, special)
}

/// The strength label of `password` as text.
pub fn check_password_strength(password: &str) -> (label: &'static str)
    ensures
        label@ == strength_of(password@).label_text(),
{
    password_strength(password).label()
}

} // verus!
