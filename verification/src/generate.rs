//! Drawing a password from a pool of characters.

use crate::charset::{build_charset, charset_has_no_repeats, charset_of, charset_size};
use crate::text::chars_of;
use rand::rngs::ThreadRng;
use rand::Rng;
use vstd::prelude::*;

verus! {

/// The thread-local generator handle of `rand`. Nothing is known of its state.
#[verifier::external_type_specification]
#[verifier::external_body]
pub struct ExThreadRng(ThreadRng);

/// `rand::thread_rng`: hands out the calling thread's generator, which the
/// system seeds on first use; the call fails only where the system has no
/// seed to give. Nothing is claimed of the handle.
pub assume_specification[ rand::thread_rng ]() -> (rng: ThreadRng)
;

/// `Rng::gen_range` on `0..bound`: some index below `bound`. The call panics
/// on an empty range, so `bound` must be positive. It also fails where the
/// system refuses the generator fresh entropy when it reseeds itself, which
/// no condition on the arguments can exclude. Which index comes back is left
/// open: two calls may differ.
#[verifier::external_body]
fn random_index(rng: &mut ThreadRng, bound: usize) -> (index: usize)
    requires
        bound > 0,
    ensures
        index < bound,
{
    rng.gen_range(0..bound)
}

/// `String::push`: appends one character to the end of the string.
#[verifier::external_body]
fn push_char(s: &mut String, c: char)
    ensures
        final(s)@ == old(s)@.push(c),
{
    s.push(c)
}

/// Why no password could be produced.
#[derive(Clone, Copy, Debug, PartialEq, Eq, Structural)]
pub enum GenerateError {
    /// At least one character was asked for, and the pool holds none.
    EmptyCharset,
    /// An index points past the end of the pool.
    IndexOutOfRange,
}

/// Every index is a position of a pool with `bound` characters.
pub open spec fn indices_in_range(indices: Seq<usize>, bound: nat) -> bool {
    forall|i: int| 0 <= i < indices.len() ==> #[trigger] indices[i] < bound
}

/// The characters that `indices` pick from `charset`, position by position.
pub open spec fn selected(charset: Seq<char>, indices: Seq<usize>) -> Seq<char> {
    Seq::new(indices.len(), |i: int| charset[indices[i] as int])
}

/// Every character of `password` occurs in `charset`.
pub open spec fn drawn_from(password: Seq<char>, charset: Seq<char>) -> bool {
    forall|i: int| 0 <= i < password.len() ==> charset.contains(#[trigger] password[i])
}

/// `password` is what some run of `password.len()` indices picks from
/// `charset`, each index a position of it.
pub open spec fn picked_from(password: Seq<char>, charset: Seq<char>) -> bool {
    exists|indices: Seq<usize>|
        indices.len() == password.len() && indices_in_range(indices, charset.len())
            && password == #[trigger] selected(charset, indices)
}

/// What is drawn is decided by the draw alone. From a pool in which no
/// character occurs twice, two runs of indices that differ at a position
/// pick different characters at that position, so two passwords from one
/// pool are equal only where every single draw was.
pub proof fn different_draws_differ(
    charset: Seq<char>,
    first: Seq<usize>,
    second: Seq<usize>,
    position: int,
)
    requires
        charset.no_duplicates(),
        indices_in_range(first, charset.len()),
        indices_in_range(second, charset.len()),
        0 <= position < first.len(),
        position < second.len(),
        first[position] != second[position],
    ensures
        selected(charset, first)[position] != selected(charset, second)[position],
        selected(charset, first) != selected(charset, second),
{
    assert(first[position] < charset.len());
    assert(second[position] < charset.len());
}

/// Two passwords from the pool of one choice of categories differ at every
/// position at which their draws differ: the password is no function of the
/// length and the categories alone, and only equal draws throughout give
/// equal passwords.
pub proof fn passwords_differ_where_draws_do(
    include_uppercase: bool,
    include_numbers: bool,
    include_special: bool,
    first: Seq<usize>,
    second: Seq<usize>,
    position: int,
)
    requires
        indices_in_range(
            first,
            charset_of(include_uppercase, include_numbers, include_special).len(),
        ),
        indices_in_range(
            second,
            charset_of(include_uppercase, include_numbers, include_special).len(),
        ),
        0 <= position < first.len(),
        position < second.len(),
        first[position] != second[position],
    ensures
        selected(charset_of(include_uppercase, include_numbers, include_special), first)[position]
            != selected(
            charset_of(include_uppercase, include_numbers, include_special),
            second,
        )[position],
{
    charset_has_no_repeats(include_uppercase, include_numbers, include_special);
    different_draws_differ(
        charset_of(include_uppercase, include_numbers, include_special),
        first,
        second,
        position,
    );
}

/// Characters picked by in-range indices are drawn from the pool, one per index.
pub proof fn selected_is_drawn(charset: Seq<char>, indices: Seq<usize>)
    requires
        indices_in_range(indices, charset.len()),
    ensures
        selected(charset, indices).len() == indices.len(),
        drawn_from(selected(charset, indices), charset),
{
    assert forall|i: int| 0 <= i < indices.len() implies charset.contains(
        #[trigger] selected(charset, indices)[i],
    ) by {
        assert(indices[i] < charset.len());
        assert(charset[indices[i] as int] == selected(charset, indices)[i]);
    }
}

/// The string that `indices` pick from `charset`, or `IndexOutOfRange` when
/// one of them is no position of it.
pub fn select_chars(charset: &str, indices: &Vec<usize>) -> (picked: Result<String, GenerateError>)
    ensures
        match picked {
            Ok(s) => indices_in_range(indices@, charset@.len()) && s@ == selected(
                charset@,
                indices@,
            ),
            Err(e) => !indices_in_range(indices@, charset@.len()) && e
                == GenerateError::IndexOutOfRange,
        },
{
    let pool = chars_of(charset);
    let mut out = String::new();
    let mut i: usize = 0;
    while i < indices.len()
        invariant
            pool@ == charset@,
            i <= indices.len(),
            indices_in_range(indices@.take(i as int), pool@.len()),
            out@ == selected(pool@, indices@.take(i as int)),
        decreases indices.len() - i,
    {
        let index = indices[i];
        if index >= pool.len() {
            return Err(GenerateError::IndexOutOfRange);
        }
        push_char(&mut out, pool[index]);
        proof {
            let before = indices@.take(i as int);
            let after = indices@.take(i + 1);
            assert(after =~= before.push(index));
            assert(out@ =~= selected(pool@, after));
        }
        i += 1;
    }
    assert(indices@.take(i as int) =~= indices@);
    Ok(out)
}

/// `length` indices into a pool of `bound` characters, each drawn afresh.
pub fn draw_indices(length: usize, bound: usize) -> (indices: Vec<usize>)
    requires
        bound > 0,
    ensures
        indices@.len() == length,
        indices_in_range(indices@, bound as nat),
{
    let mut rng = rand::thread_rng();
    let mut indices: Vec<usize> = Vec::new();
    while indices.len() < length
        invariant
            bound > 0,
            indices@.len() <= length,
            indices_in_range(indices@, bound as nat),
        decreases length - indices@.len(),
    {
        let index = random_index(&mut rng, bound);
        indices.push(index);
    }
    indices
}

/// Draws `length` characters from `charset`, each position on its own and
/// with replacement. Asking for nothing always succeeds; asking for at least
/// one character of an empty pool is `EmptyCharset`.
pub fn sample_from(charset: &str, length: usize) -> (sampled: Result<String, GenerateError>)
    ensures
        match sampled {
            Ok(s) => (length == 0 || charset@.len() > 0) && s@.len() == length && drawn_from(
                s@,
                charset@,
            ) && picked_from(s@, charset@),
            Err(e) => length > 0 && charset@.len() == 0 && e == GenerateError::EmptyCharset,
        },
{
    if length == 0 {
        let nothing = String::new();
        assert(nothing@ =~= selected(charset@, Seq::<usize>::empty()));
        return Ok(nothing);
    }
    let bound = charset.unicode_len();
    if bound == 0 {
        return Err(GenerateError::EmptyCharset);
    }
    let indices = draw_indices(length, bound);
    proof {
        selected_is_drawn(charset@, indices@);
    }
    select_chars(charset, &indices)
}

/// A password of exactly `length` characters, each drawn from the pool that
/// the three flags assemble: what some `length` positions of the pool pick.
/// A length of zero gives the empty string.
pub fn generate_password(
    length: usize,
    include_uppercase: bool,
    include_numbers: bool,
    include_special: bool,
) -> (password: String)
    ensures
        password@.len() == length,
        drawn_from(password@, charset_of(include_uppercase, include_numbers, include_special)),
        picked_from(password@, charset_of(include_uppercase, include_numbers, include_special)),
        length == 0 ==> password@ == Seq::<char>::empty(),
{
    let charset = build_charset(include_uppercase, include_numbers, include_special);
    proof {
        charset_size(include_uppercase, include_numbers, include_special);
    }
    let password = sample_from(charset.as_str(), length).unwrap();
    assert(length == 0 ==> password@ =~= Seq::<char>::empty());
    password
}

} // verus!
