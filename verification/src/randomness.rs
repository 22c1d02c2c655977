//! The diversity of a password: how many distinct characters it holds,
//! against its length.

use crate::text::chars_of;
use std::collections::HashSet;
use vstd::prelude::*;

verus! {

/// The two counts whose quotient is the randomness ratio of a password.
#[derive(Clone, Copy, Debug, PartialEq, Eq, Structural)]
pub struct Randomness {
    /// How many distinct characters the password holds.
    pub unique: usize,
    /// How many characters the password holds.
    pub total: usize,
}

impl Randomness {
    /// The counts stand for a ratio in the range from above 0 up to 1.
    pub open spec fn wf(self) -> bool {
        0 < self.unique <= self.total
    }
}

/// How many distinct characters `password` holds; equality of characters is
/// exact, so a letter and its other case count as two.
pub open spec fn unique_count(password: Seq<char>) -> nat {
    password.to_set().len()
}

/// The counts of a non-empty password; an empty one has no ratio.
pub open spec fn randomness_of(password: Seq<char>) -> Option<Randomness> {
    if password.len() == 0 {
        None
    } else {
        Some(
            Randomness {
                unique: unique_count(password) as usize,
                total: password.len() as usize,
            },
        )
    }
}

/// A password holds no more distinct characters than characters, and a
/// non-empty one holds at least one.
pub proof fn unique_count_bounds(password: Seq<char>)
    ensures
        unique_count(password) <= password.len(),
        password.len() > 0 ==> unique_count(password) > 0,
{
    password.lemma_cardinality_of_set();
    if password.len() > 0 {
        assert(password.to_set().contains(password[0]));
        vstd::seq_lib::seq_to_set_is_finite(password);
        if password.to_set().len() == 0 {
            password.to_set().lemma_len0_is_empty();
        }
    }
}

/// The code point of a character: the integer by which the set of seen
/// characters tells it from every other.
pub open spec fn code_of() -> spec_fn(char) -> u32 {
    |c: char| c as u32
}

/// The code points of the characters that occur in `s`.
pub open spec fn code_points(s: Seq<char>) -> Set<u32> {
    s.to_set().map(code_of())
}

/// Distinct characters have distinct code points, so a sequence holds as
/// many of the one as of the other.
pub proof fn code_points_count(s: Seq<char>)
    ensures
        code_points(s).finite(),
        code_points(s).len() == unique_count(s),
{
    vstd::seq_lib::seq_to_set_is_finite(s);
    assert forall|x: char, y: char| #[trigger] code_of()(x) == #[trigger] code_of()(y) implies x
        == y by {
        vstd::utf8::char_u32_cast(x, x as u32);
        vstd::utf8::char_u32_cast(y, y as u32);
    }
    assert(vstd::relations::injective_on(code_of(), s.to_set()));
    vstd::set_lib::lemma_map_size(s.to_set(), code_points(s), code_of());
}

/// One more character adds its code point and no other.
pub proof fn code_points_push(s: Seq<char>, c: char)
    ensures
        code_points(s.push(c)) == code_points(s).insert(c as u32),
{
    s.lemma_push_to_set_commute(c);
    let after = code_points(s.push(c));
    let expected = code_points(s).insert(c as u32);
    assert forall|u: u32| after.contains(u) implies expected.contains(u) by {
        let x = choose|x: char| s.push(c).to_set().contains(x) && code_of()(x) == u;
        if x != c {
            assert(s.to_set().contains(x));
        }
    }
    assert forall|u: u32| expected.contains(u) implies after.contains(u) by {
        if u == c as u32 {
            assert(s.push(c).to_set().contains(c) && code_of()(c) == u);
        } else {
            let x = choose|x: char| s.to_set().contains(x) && code_of()(x) == u;
            assert(s.push(c).to_set().contains(x) && code_of()(x) == u);
        }
    }
    assert(after =~= expected);
}

/// How many distinct characters `password` holds.
pub fn count_unique(password: &str) -> (count: usize)
    ensures
        count == unique_count(password@),
{
    broadcast use vstd::std_specs::hash::group_hash_axioms;

    let chars = chars_of(password);
    let mut seen: HashSet<u32> = HashSet::new();
    assert(seen@ =~= code_points(chars@.take(0)));
    let mut i: usize = 0;
    while i < chars.len()
        invariant
            i <= chars.len(),
            seen@ == code_points(chars@.take(i as int)),
        decreases chars.len() - i,
    {
        let c = chars[i];
        proof {
            assert(chars@.take(i + 1) =~= chars@.take(i as int).push(c));
            code_points_push(chars@.take(i as int), c);
        }
        seen.insert(c as u32);
        i += 1;
    }
    proof {
        assert(chars@.take(i as int) =~= password@);
        code_points_count(password@);
    }
    seen.len()
}

/// The number of distinct characters of `password` and its number of
/// characters, which the ratio divides by; `None` exactly for the empty
/// password, for which the ratio is not defined.
pub fn check_password_randomness(password: &str) -> (randomness: Option<Randomness>)
    ensures
        randomness == randomness_of(password@),
        randomness is None <==> password@.len() == 0,
        match randomness {
            Some(r) => r.wf() && r.unique == unique_count(password@) && r.total
                == password@.len(),
            None => true,
        },
{
    let total = password.unicode_len();
    proof {
        unique_count_bounds(password@);
    }
    if total == 0 {
        return None;
    }
    Some(Randomness { unique: count_unique(password), total })
}

} // verus!
