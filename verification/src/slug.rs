//! Random identifiers that name a paste's file and its place in the URL.

use rand::Rng;
use vstd::prelude::*;

verus! {

/// The alphabet of slugs: the ASCII letters and digits.
pub open spec fn is_slug_char(c: char) -> bool {
    ||| 'A' <= c <= 'Z'
    ||| 'a' <= c <= 'z'
    ||| '0' <= c <= '9'
}

/// A slug of `len` characters: each one a letter or a digit.
pub open spec fn is_slug(s: Seq<char>, len: nat) -> bool {
    &&& s.len() == len
    &&& forall|i: int| 0 <= i < s.len() ==> is_slug_char(#[trigger] s[i])
}

/// `rand::ThreadRng`, the handle to the calling thread's random number
/// generator. Nothing is known of what it holds.
#[verifier::external_type_specification]
#[verifier::external_body]
pub struct ExThreadRng(rand::ThreadRng);

/// `rand::thread_rng` hands out the calling thread's generator, seeded by the
/// system. Nothing is claimed of the handle. The call rests on the system
/// offering a source of entropy: `rand` panics where it finds none.
pub assume_specification[ rand::thread_rng ]() -> (rng: rand::ThreadRng)
;

/// `rand::Rng::gen_ascii_chars` gives an iterator that never ends, and each
/// `next` of it picks one byte out of `A-Z`, `a-z`, `0-9` and returns it as a
/// `char`. The contract claims no more than that: the result is `Some`, and
/// the character is of that alphabet. Which one it is depends on chance.
#[verifier::external_body]
fn next_ascii_char(rng: &mut rand::ThreadRng) -> (c: Option<char>)
    ensures
        c is Some,
        is_slug_char(c->0),
{
    rng.gen_ascii_chars().next()
}

/// Whether `c` is a character of the alphabet.
pub fn slug_char(c: char) -> (ok: bool)
    ensures
        ok == is_slug_char(c),
{
    ('A' <= c && c <= 'Z') || ('a' <= c && c <= 'z') || ('0' <= c && c <= '9')
}

/// Appends what was drawn to `slug`, if it is a character of the alphabet.
/// Anything else is dropped, and `slug` stays as it is.
pub fn push_drawn(slug: &mut String, drawn: Option<char>) -> (pushed: bool)
    ensures
        pushed == (drawn is Some && is_slug_char(drawn->0)),
        final(slug)@ == if pushed {
            old(slug)@.push(drawn->0)
        } else {
            old(slug)@
        },
{
    match drawn {
        Some(c) => {
            if slug_char(c) {
                slug.push(c);
                true
            } else {
                false
            }
        },
        None => false,
    }
}

/// Draws a slug of `slug_len` characters from the thread's random number
/// generator. Slugs are not checked against those handed out before.
pub fn get_slug(slug_len: usize) -> (slug: String)
    ensures
        is_slug(slug@, slug_len as nat),
{
    let mut rng = rand::thread_rng();
    let mut slug = String::new();
    let mut drawn: usize = 0;
    while drawn < slug_len
        invariant
            drawn <= slug_len,
            is_slug(slug@, drawn as nat),
        decreases slug_len - drawn,
    {
        if push_drawn(&mut slug, next_ascii_char(&mut rng)) {
            drawn += 1;
        }
    }
    slug
}

} // verus!
