//! Cumulative per-letter hints over a session's guesses.
//!
//! For each of the 26 letters the session keeps the best classification
//! observed so far, upgraded with precedence `Exact > Close > Wrong`, with
//! one deliberate exception kept from the game's observed behaviour: a
//! letter standing at `Close` is downgraded to `Wrong` by a later guess that
//! classifies one of its occurrences as `Wrong` (the first occurrence of a
//! doubled letter may be `Close` while the second is genuinely absent).
//!
//! Every letter starts at `Close`, which doubles as "nothing decisive known
//! yet": such letters are rendered plain, `Exact` ones emphasized, `Wrong`
//! ones struck through.

use vstd::prelude::*;
use crate::matching::LetterMatch;
use crate::words::{is_word, is_lower_letter, letter_index, exec_letter_index};

verus! {

/// The hint a letter carries after one more observation `m`.
pub open spec fn upgrade(cur: LetterMatch, m: LetterMatch) -> LetterMatch {
    match m {
        LetterMatch::Exact => LetterMatch::Exact,
        LetterMatch::Close => if cur == LetterMatch::Exact {
            LetterMatch::Exact
        } else {
            LetterMatch::Close
        },
        LetterMatch::Wrong => if cur == LetterMatch::Close {
            LetterMatch::Wrong
        } else {
            cur
        },
    }
}

/// The hint table after folding in the first `i` positions of a marked
/// guess, in position order.
pub open spec fn spec_update_hints(
    h: Seq<LetterMatch>,
    g: Seq<char>,
    marks: Seq<LetterMatch>,
    i: int,
) -> Seq<LetterMatch>
    decreases i,
{
    if i <= 0 {
        h
    } else {
        let prev = spec_update_hints(h, g, marks, i - 1);
        prev.update(letter_index(g[i - 1]), upgrade(prev[letter_index(g[i - 1])], marks[i - 1]))
    }
}

/// The fresh hint table: every letter at `Close`.
pub open spec fn spec_fresh_hints() -> Seq<LetterMatch> {
    Seq::new(26, |i: int| LetterMatch::Close)
}

/// Folding in a guess keeps the table's length.
pub proof fn lemma_update_hints_len(
    h: Seq<LetterMatch>,
    g: Seq<char>,
    marks: Seq<LetterMatch>,
    i: int,
)
    requires
        h.len() == 26,
        is_word(g),
        i <= 5,
    ensures
        spec_update_hints(h, g, marks, i).len() == 26,
    decreases i,
{
    if i > 0 {
        lemma_update_hints_len(h, g, marks, i - 1);
        assert(is_lower_letter(g[i - 1]));
    }
}

/// The cumulative alphabet hint table of one game session.
#[derive(Clone, Debug)]
pub struct Alphabet {
    table: Vec<LetterMatch>,
}

impl View for Alphabet {
    type V = Seq<LetterMatch>;

    closed spec fn view(&self) -> Seq<LetterMatch> {
        self.table@
    }
}

impl Alphabet {
    /// A fresh table with every letter at `Close`.
    pub fn new() -> (r: Alphabet)
        ensures
            r@ == spec_fresh_hints(),
    {
        let mut table: Vec<LetterMatch> = Vec::new();
        for k in 0..26
            invariant
                table.len() == k,
                forall|j: int| 0 <= j < k ==> #[trigger] table@[j] == LetterMatch::Close,
        {
            table.push(LetterMatch::Close);
        }
        proof {
            assert(table@ =~= spec_fresh_hints());
        }
        Alphabet { table }
    }

    /// The hint currently held for the `idx`-th letter of the alphabet.
    pub fn hint(&self, idx: usize) -> (m: LetterMatch)
        requires
            self@.len() == 26,
            idx < 26,
        ensures
            m == self@[idx as int],
    {
        self.table[idx]
    }

    /// Fold one marked guess into the table, position by position.
    pub fn absorb(&mut self, guess: &str, marks: &Vec<LetterMatch>)
        requires
            old(self)@.len() == 26,
            is_word(guess@),
            marks@.len() == 5,
        ensures
            final(self)@ == spec_update_hints(old(self)@, guess@, marks@, 5),
    {
        let ghost h0 = self@;
        let ghost g = guess@;
        for i in 0..5
            invariant
                g == guess@,
                is_word(g),
                marks@.len() == 5,
                self@.len() == 26,
                self@ == spec_update_hints(h0, g, marks@, i as int),
        {
            let c = guess.get_char(i);
            let idx = exec_letter_index(c);
            let cur = self.table[idx];
            let m = marks[i];
            let next = match m {
                LetterMatch::Exact => LetterMatch::Exact,
                LetterMatch::Close => if cur == LetterMatch::Exact {
                    LetterMatch::Exact
                } else {
                    LetterMatch::Close
                },
                LetterMatch::Wrong => if cur == LetterMatch::Close {
                    LetterMatch::Wrong
                } else {
                    cur
                },
            };
            self.table.set(idx, next);
            proof {
                assert(self@ =~= spec_update_hints(h0, g, marks@, i + 1));
            }
        }
    }
}

} // verus!
