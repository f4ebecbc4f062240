//! Generation of record identifiers: fixed-length strings over the digits
//! and the lowercase letters `a` through `f`, drawn at random.
//!
//! Collisions between two generated IDs are possible in principle and are
//! deliberately not checked for; they are only statistically unlikely.

use vstd::prelude::*;
use crate::text::push_char;

verus! {

/// Character length of generated IDs.
pub const RECORD_ID_LENGTH: usize = 8;

/// The characters a generated ID may consist of.
pub open spec fn is_id_char(c: char) -> bool {
    ('0' <= c && c <= '9') || ('a' <= c && c <= 'f')
}

/// A well-formed record ID: fixed length, drawn from the ID alphabet.
pub open spec fn valid_id(s: Seq<char>) -> bool {
    &&& s.len() == RECORD_ID_LENGTH
    &&& forall|i: int| 0 <= i < s.len() ==> is_id_char(#[trigger] s[i])
}

/// The ID alphabet in draw order: the digits `1` through `9`, then `0`,
/// then `a` through `f`.
pub open spec fn id_alphabet_char(d: int) -> char {
    if d == 0 {
        '1'
    } else if d == 1 {
        '2'
    } else if d == 2 {
        '3'
    } else if d == 3 {
        '4'
    } else if d == 4 {
        '5'
    } else if d == 5 {
        '6'
    } else if d == 6 {
        '7'
    } else if d == 7 {
        '8'
    } else if d == 8 {
        '9'
    } else if d == 9 {
        '0'
    } else if d == 10 {
        'a'
    } else if d == 11 {
        'b'
    } else if d == 12 {
        'c'
    } else if d == 13 {
        'd'
    } else if d == 14 {
        'e'
    } else {
        'f'
    }
}

/// The alphabet has no repeated characters, so distinct draws yield
/// distinct ID characters.
pub proof fn lemma_id_alphabet_injective(d1: int, d2: int)
    requires
        0 <= d1 < 16,
        0 <= d2 < 16,
        d1 != d2,
    ensures
        id_alphabet_char(d1) != id_alphabet_char(d2),
{
}

/// Relies on rand::random: draws a fresh value from the thread-local
/// generator. Nothing is promised of the value.
pub assume_specification<T>[ rand::random::<T> ]() -> (r: T)
    where
        rand::distributions::Standard: rand::distributions::Distribution<T>,
;

/// The ID character a single draw yields: exactly the alphabet character at
/// the drawn index.
pub fn id_char(d: u8) -> (c: char)
    requires
        d < 16,
    ensures
        c == id_alphabet_char(d as int),
        is_id_char(c),
{
    if d == 0 {
        '1'
    } else if d == 1 {
        '2'
    } else if d == 2 {
        '3'
    } else if d == 3 {
        '4'
    } else if d == 4 {
        '5'
    } else if d == 5 {
        '6'
    } else if d == 6 {
        '7'
    } else if d == 7 {
        '8'
    } else if d == 8 {
        '9'
    } else if d == 9 {
        '0'
    } else if d == 10 {
        'a'
    } else if d == 11 {
        'b'
    } else if d == 12 {
        'c'
    } else if d == 13 {
        'd'
    } else if d == 14 {
        'e'
    } else {
        'f'
    }
}

/// Returns a freshly generated random ID consisting of lowercase
/// hexadecimal characters: each of its characters is the alphabet character
/// for one independent draw.
pub fn generate_id() -> (r: String)
    ensures
        valid_id(r@),
{
    let mut id = String::new();
    let mut k: usize = 0;
    while k < RECORD_ID_LENGTH
        invariant
            0 <= k <= RECORD_ID_LENGTH,
            id@.len() == k,
            forall|i: int| 0 <= i < id@.len() ==> is_id_char(#[trigger] id@[i]),
        decreases RECORD_ID_LENGTH - k,
    {
        let n: usize = rand::random();
        let c = id_char((n % 16) as u8);
        push_char(&mut id, c);
        k = k + 1;
    }
    id
}

} // verus!
