//! The shape of a playable word: exactly five lowercase ASCII letters.
//!
//! Guesses and targets are ordinary `String`s; every function that needs a
//! word states `is_word` of its view.  Lower-casing of user input is defined
//! here as well, character by character.

use vstd::prelude::*;

verus! {

/// A lowercase ASCII letter, `'a'` through `'z'`.
pub open spec fn is_lower_letter(c: char) -> bool {
    'a' as u32 <= c as u32 <= 'z' as u32
}

/// An uppercase ASCII letter, `'A'` through `'Z'`.
pub open spec fn is_upper_letter(c: char) -> bool {
    'A' as u32 <= c as u32 <= 'Z' as u32
}

/// An ASCII letter of either case.
pub open spec fn is_ascii_letter(c: char) -> bool {
    is_lower_letter(c) || is_upper_letter(c)
}

/// A playable word: exactly five lowercase ASCII letters.
pub open spec fn is_word(s: Seq<char>) -> bool {
    &&& s.len() == 5
    &&& forall|i: int| 0 <= i < 5 ==> is_lower_letter(#[trigger] s[i])
}

/// The zero-based position of a lowercase letter in the alphabet.
pub open spec fn letter_index(c: char) -> int {
    c as u32 - 'a' as u32
}

/// The lowercase form of an ASCII character; other characters are unchanged.
pub open spec fn to_lower(c: char) -> char {
    if is_upper_letter(c) {
        ((c as u32 + 32) as u8) as char
    } else {
        c
    }
}

/// Character-wise lower-casing of a sequence.
pub open spec fn to_lower_seq(s: Seq<char>) -> Seq<char> {
    s.map_values(|c: char| to_lower(c))
}

/// Distinct lowercase letters sit at distinct alphabet positions.
pub proof fn lemma_letter_index_injective(a: char, b: char)
    requires
        is_lower_letter(a),
        is_lower_letter(b),
    ensures
        letter_index(a) == letter_index(b) ==> a == b,
{
}

pub fn exec_is_lower_letter(c: char) -> (r: bool)
    ensures
        r == is_lower_letter(c),
{
    let u = c as u32;
    97 <= u && u <= 122
}

pub fn exec_is_upper_letter(c: char) -> (r: bool)
    ensures
        r == is_upper_letter(c),
{
    let u = c as u32;
    65 <= u && u <= 90
}

pub fn exec_is_ascii_letter(c: char) -> (r: bool)
    ensures
        r == is_ascii_letter(c),
{
    exec_is_lower_letter(c) || exec_is_upper_letter(c)
}

pub fn exec_to_lower(c: char) -> (r: char)
    ensures
        r == to_lower(c),
{
    if exec_is_upper_letter(c) {
        let u = c as u32;
        ((u + 32) as u8) as char
    } else {
        c
    }
}

pub fn exec_letter_index(c: char) -> (r: usize)
    requires
        is_lower_letter(c),
    ensures
        r == letter_index(c),
        r < 26,
{
    (c as u32 - 97) as usize
}

} // verus!
