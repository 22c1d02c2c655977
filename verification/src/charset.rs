//! The four character categories and the pool assembled from them.

use vstd::prelude::*;
use vstd::string::StringExecFns;

verus! {

/// The 26 lowercase letters; always part of the pool.
pub const LOWERCASE: &'static str = "abcdefghijklmnopqrstuvwxyz";

/// The 26 uppercase letters.
pub const UPPERCASE: &'static str = "ABCDEFGHIJKLMNOPQRSTUVWXYZ";

/// The 10 decimal digits.
pub const NUMBERS: &'static str = "0123456789";

/// The special symbols.
pub const SPECIAL_CHARACTERS: &'static str = "!@#$%^&*()_-+=<>?";

/// `part` if `enabled`, else nothing.
pub open spec fn optional_part(enabled: bool, part: Seq<char>) -> Seq<char> {
    if enabled {
        part
    } else {
        Seq::empty()
    }
}

/// The pool for a choice of categories: the lowercase letters, then each
/// enabled category in the order uppercase, digits, special symbols.
pub open spec fn charset_of(
    include_uppercase: bool,
    include_numbers: bool,
    include_special: bool,
) -> Seq<char> {
    LOWERCASE@ + optional_part(include_uppercase, UPPERCASE@) + optional_part(
        include_numbers,
        NUMBERS@,
    ) + optional_part(include_special, SPECIAL_CHARACTERS@)
}

/// The sizes of the four categories.
pub proof fn category_sizes()
    ensures
        LOWERCASE@.len() == 26,
        UPPERCASE@.len() == 26,
        NUMBERS@.len() == 10,
        SPECIAL_CHARACTERS@.len() == 17,
{
    reveal_strlit("abcdefghijklmnopqrstuvwxyz");
    reveal_strlit("ABCDEFGHIJKLMNOPQRSTUVWXYZ");
    reveal_strlit("0123456789");
    reveal_strlit("!@#$%^&*()_-+=<>?");
}

/// Every pool holds the lowercase letters first, so none is empty, and its
/// size is the sum of the sizes of the enabled categories.
pub proof fn charset_size(include_uppercase: bool, include_numbers: bool, include_special: bool)
    ensures
        charset_of(include_uppercase, include_numbers, include_special).len() == 26 + (if include_uppercase {
            26int
        } else {
            0
        }) + (if include_numbers {
            10int
        } else {
            0
        }) + (if include_special {
            17int
        } else {
            0
        }),
        charset_of(include_uppercase, include_numbers, include_special).len() > 0,
{
    category_sizes();
}

/// No character occurs twice in a pool.
pub proof fn charset_has_no_repeats(
    include_uppercase: bool,
    include_numbers: bool,
    include_special: bool,
)
    ensures
        charset_of(include_uppercase, include_numbers, include_special).no_duplicates(),
{
    reveal_strlit("abcdefghijklmnopqrstuvwxyz");
    reveal_strlit("ABCDEFGHIJKLMNOPQRSTUVWXYZ");
    reveal_strlit("0123456789");
    reveal_strlit("!@#$%^&*()_-+=<>?");
    let lower = LOWERCASE@;
    let upper = optional_part(include_uppercase, UPPERCASE@);
    let numbers = optional_part(include_numbers, NUMBERS@);
    let special = optional_part(include_special, SPECIAL_CHARACTERS@);
    assert(forall|i: int| 0 <= i < lower.len() ==> #[trigger] lower[i] as int == 'a' as int + i);
    assert(forall|i: int| 0 <= i < upper.len() ==> #[trigger] upper[i] as int == 'A' as int + i);
    assert(forall|i: int| 0 <= i < numbers.len() ==> #[trigger] numbers[i] as int == '0' as int + i);
    assert(forall|i: int|
        0 <= i < special.len() ==> !('a' <= #[trigger] special[i] <= 'z') && !('A' <= special[i]
            <= 'Z') && !('0' <= special[i] <= '9'));
    assert(special.no_duplicates());
    let charset = charset_of(include_uppercase, include_numbers, include_special);
    assert forall|i: int, j: int| 0 <= i < j < charset.len() implies charset[i] != charset[j] by {
        let a = lower.len() as int;
        let b = a + upper.len();
        let c = b + numbers.len();
        if i >= c {
            assert(charset[i] == special[i - c] && charset[j] == special[j - c]);
        }
    }
}

/// Assembles the pool for a choice of categories.
pub fn build_charset(include_uppercase: bool, include_numbers: bool, include_special: bool) -> (charset:
    String)
    ensures
        charset@ == charset_of(include_uppercase, include_numbers, include_special),
{
    let mut charset = String::from_str(LOWERCASE);
    if include_uppercase {
        charset.append(UPPERCASE);
    }
    assert(charset@ =~= LOWERCASE@ + optional_part(include_uppercase, UPPERCASE@));
    if include_numbers {
        charset.append(NUMBERS);
    }
    assert(charset@ =~= LOWERCASE@ + optional_part(include_uppercase, UPPERCASE@) + optional_part(
        include_numbers,
        NUMBERS@,
    ));
    if include_special {
        charset.append(SPECIAL_CHARACTERS);
    }
    assert(charset@ =~= charset_of(include_uppercase, include_numbers, include_special));
    charset
}

} // verus!
