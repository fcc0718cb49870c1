//! The dictionary collaborator: the fixed word lists of an outside crate.
//!
//! The game needs two pure lookups from the word-list collaborator: whether
//! a lowercased five-letter word may be guessed, and the answer word for a
//! given day number.  Both are lookups in fixed, compiled-in lists, so each
//! result is named by an uninterpreted spec function of the arguments alone.
//! Drawing the day number itself is random, and nothing is promised of it.

use vstd::prelude::*;
use crate::words::is_word;

verus! {

/// Whether the dictionary accepts a word as a guess.
pub uninterp spec fn in_dictionary(w: Seq<char>) -> bool;

/// The answer word the solution list yields for a day number.
pub uninterp spec fn spec_daily_answer(day: u64) -> Seq<char>;

/// Relies on `cl_wordle::words::WordSet::valid` on the NYTIMES word set: a
/// pure lookup in the fixed solution and acceptable word lists, so the
/// result depends on the word alone.
#[verifier::external_body]
pub(crate) fn is_valid_guess(word: &str) -> (r: bool)
    ensures
        r == in_dictionary(word@),
{
    cl_wordle::words::NYTIMES.valid(word)
}

/// Relies on `cl_wordle::words::WordSet::get_solution` on the NYTIMES word
/// set: the day number picks an entry of the fixed solution list, so the
/// result depends on the day alone.  Every entry of that list is five
/// lowercase ASCII letters, and the solution list is part of the acceptable
/// guesses, so the answer is itself a valid guess.
#[verifier::external_body]
pub(crate) fn daily_answer(day: u64) -> (w: String)
    ensures
        w@ == spec_daily_answer(day),
        is_word(w@),
        in_dictionary(w@),
{
    cl_wordle::words::NYTIMES.get_solution(day as usize).to_owned()
}

/// Relies on `rand::random`: draws a fresh day number for a new game.
/// Nothing is promised of the result.
#[verifier::external_body]
pub(crate) fn random_day() -> u64 {
    rand::random()
}

} // verus!
