//! Short random identifiers for new pastes.

use rand::Rng;
use vstd::prelude::*;

verus! {

/// The number of letters a slug draws from.
pub const ALPHABET_LEN: u8 = 26;

/// A character that may stand in a slug: a lowercase ASCII letter.
pub open spec fn is_slug_char(c: char) -> bool {
    'a' <= c && c <= 'z'
}

/// A slug of length `len`: that many lowercase ASCII letters.
pub open spec fn is_slug(s: Seq<char>, len: nat) -> bool {
    &&& s.len() == len
    &&& forall|i: int| 0 <= i < s.len() ==> is_slug_char(#[trigger] s[i])
}

/// The letter that a draw `k` below the alphabet's length stands for: the
/// `k`-th letter from `a`.
pub open spec fn letter_of(k: u8) -> char {
    ((97 + k) as u32) as char
}

/// Maps a draw below the alphabet's length to its letter.
pub fn slug_letter(k: u8) -> (c: char)
    requires
        k < ALPHABET_LEN,
    ensures
        c == letter_of(k),
        is_slug_char(c),
{
    (97u8 + k) as char
}

/// Spells the slug that a sequence of draws stands for, one letter per draw.
pub fn slug_from_draws(draws: &Vec<u8>) -> (r: String)
    requires
        forall|i: int| 0 <= i < draws@.len() ==> #[trigger] draws@[i] < ALPHABET_LEN,
    ensures
        r@ == draws@.map_values(|k: u8| letter_of(k)),
        is_slug(r@, draws@.len()),
{
    let mut out = String::new();
    let mut i: usize = 0;
    while i < draws.len()
        invariant
            i <= draws@.len(),
            forall|j: int| 0 <= j < draws@.len() ==> #[trigger] draws@[j] < ALPHABET_LEN,
            out@ == draws@.subrange(0, i as int).map_values(|k: u8| letter_of(k)),
            is_slug(out@, i as nat),
        decreases draws@.len() - i,
    {
        let c = slug_letter(draws[i]);
        push_char(&mut out, c);
        assert(draws@.subrange(0, i as int + 1).map_values(|k: u8| letter_of(k)) =~= draws@.subrange(
            0,
            i as int,
        ).map_values(|k: u8| letter_of(k)).push(c));
        i += 1;
    }
    assert(draws@.subrange(0, i as int) =~= draws@);
    out
}

/// Relies on rand's `Rng::gen_range` on the thread-local generator: a value
/// drawn from `low..high`, which must not be empty.
#[verifier::external_body]
fn random_in(low: u8, high: u8) -> (r: u8)
    requires
        low < high,
    ensures
        low <= r < high,
{
    rand::thread_rng().gen_range(low..high)
}

/// Relies on `String::push`: appends one character at the end.
#[verifier::external_body]
pub(crate) fn push_char(s: &mut String, c: char)
    ensures
        final(s)@ == old(s)@.push(c),
{
    s.push(c)
}

/// Draws a slug of `l` letters, each picked at random from `a` to `z`.
/// Nothing makes it differ from the slugs of earlier pastes.
pub fn random_slug(l: usize) -> (r: String)
    ensures
        is_slug(r@, l as nat),
{
    let mut draws: Vec<u8> = Vec::new();
    let mut i: usize = 0;
    while i < l
        invariant
            i <= l,
            draws@.len() == i,
            forall|j: int| 0 <= j < draws@.len() ==> #[trigger] draws@[j] < ALPHABET_LEN,
        decreases l - i,
    {
        draws.push(random_in(0, ALPHABET_LEN));
        i += 1;
    }
    slug_from_draws(&draws)
}

} // verus!
