//! The duplicate-letter-correct match engine.
//!
//! A guess is compared with the target in two passes.  First every position
//! where guess and target agree is marked `Exact`, and a per-letter table of
//! remaining counts is built from the target positions that were not hit
//! exactly.  Then the remaining positions are scanned left to right: a
//! position is marked `Close` while its letter still has remaining count, and
//! `Wrong` once that count is used up.  This credits each target letter at
//! most once over all `Exact` and `Close` markings.
//!
//! The specification states the outcome of those two passes position by
//! position: a non-exact position `i` is `Close` exactly when the number of
//! earlier non-exact occurrences of its letter in the guess is still below
//! the letter's remaining count in the target.

use vstd::prelude::*;
use crate::words::{is_word, is_lower_letter, letter_index, exec_letter_index, lemma_letter_index_injective};

verus! {

/// Per-letter classification of a guess position against the target.
/// Precedence for hint purposes is `Exact > Close > Wrong`.
#[derive(Clone, Copy, Debug, PartialEq, Eq, Structural)]
pub enum LetterMatch {
    /// The letter is absent from the target, or all its occurrences
    /// are already credited.
    Wrong,
    /// The letter occurs in the target, but at another position.
    Close,
    /// The letter stands at the correct position.
    Exact,
}

/// How many of the first `i` target positions hold `c`.
pub open spec fn count_target(t: Seq<char>, c: char, i: int) -> int
    decreases i,
{
    if i <= 0 {
        0
    } else {
        count_target(t, c, i - 1) + if t[i - 1] == c {
            1int
        } else {
            0int
        }
    }
}

/// How many of the first `i` positions hold `c` in the target and are
/// matched exactly by the guess.
pub open spec fn count_exact(g: Seq<char>, t: Seq<char>, c: char, i: int) -> int
    decreases i,
{
    if i <= 0 {
        0
    } else {
        count_exact(g, t, c, i - 1) + if t[i - 1] == c && g[i - 1] == t[i - 1] {
            1int
        } else {
            0int
        }
    }
}

/// How many of the first `i` positions hold `c` in the target but are not
/// matched exactly.  At `i == 5` this is the letter's remaining count after
/// the first pass.
pub open spec fn count_unmatched(g: Seq<char>, t: Seq<char>, c: char, i: int) -> int
    decreases i,
{
    if i <= 0 {
        0
    } else {
        count_unmatched(g, t, c, i - 1) + if t[i - 1] == c && g[i - 1] != t[i - 1] {
            1int
        } else {
            0int
        }
    }
}

/// How many of the first `i` positions hold `c` in the guess without being
/// matched exactly: the rank a non-exact guess position takes among the
/// non-exact occurrences of its letter.
pub open spec fn count_nonexact(g: Seq<char>, t: Seq<char>, c: char, i: int) -> int
    decreases i,
{
    if i <= 0 {
        0
    } else {
        count_nonexact(g, t, c, i - 1) + if g[i - 1] == c && g[i - 1] != t[i - 1] {
            1int
        } else {
            0int
        }
    }
}

/// The mark the two passes give position `i`: `Exact` on agreement, `Close`
/// while the letter's remaining count is not yet used up by earlier
/// non-exact occurrences, `Wrong` afterwards.
pub open spec fn spec_mark(g: Seq<char>, t: Seq<char>, i: int) -> LetterMatch {
    if g[i] == t[i] {
        LetterMatch::Exact
    } else if count_nonexact(g, t, g[i], i) < count_unmatched(g, t, g[i], 5) {
        LetterMatch::Close
    } else {
        LetterMatch::Wrong
    }
}

/// The full match of a guess against a target: one mark per position.
pub open spec fn spec_match(g: Seq<char>, t: Seq<char>) -> Seq<LetterMatch> {
    Seq::new(5, |i: int| spec_mark(g, t, i))
}

/// All five positions of a match are `Exact`.
pub open spec fn all_exact(marks: Seq<LetterMatch>) -> bool {
    &&& marks.len() == 5
    &&& forall|i: int| 0 <= i < 5 ==> #[trigger] marks[i] == LetterMatch::Exact
}

/// Every prefix count lies between 0 and the prefix length.
proof fn lemma_count_bounds(g: Seq<char>, t: Seq<char>, c: char, i: int)
    requires
        0 <= i,
    ensures
        0 <= count_target(t, c, i) <= i,
        0 <= count_exact(g, t, c, i) <= i,
        0 <= count_unmatched(g, t, c, i) <= i,
        0 <= count_nonexact(g, t, c, i) <= i,
    decreases i,
{
    if i > 0 {
        lemma_count_bounds(g, t, c, i - 1);
    }
}

/// The target occurrences of a letter split into the exactly matched ones
/// and the remaining ones.
proof fn lemma_target_split(g: Seq<char>, t: Seq<char>, c: char, i: int)
    requires
        0 <= i,
    ensures
        count_target(t, c, i) == count_exact(g, t, c, i) + count_unmatched(g, t, c, i),
    decreases i,
{
    if i > 0 {
        lemma_target_split(g, t, c, i - 1);
    }
}

/// How many of the first `i` guess positions hold `c` and are marked `Close`.
pub open spec fn count_close(g: Seq<char>, t: Seq<char>, c: char, i: int) -> int
    decreases i,
{
    if i <= 0 {
        0
    } else {
        count_close(g, t, c, i - 1) + if g[i - 1] == c && spec_mark(g, t, i - 1)
            == LetterMatch::Close {
            1int
        } else {
            0int
        }
    }
}

/// How many of the first `i` guess positions hold `c` and are marked
/// `Exact` or `Close`: the credit the match gives the letter.
pub open spec fn count_credited(g: Seq<char>, t: Seq<char>, c: char, i: int) -> int
    decreases i,
{
    if i <= 0 {
        0
    } else {
        count_credited(g, t, c, i - 1) + if g[i - 1] == c && spec_mark(g, t, i - 1)
            != LetterMatch::Wrong {
            1int
        } else {
            0int
        }
    }
}

/// The `Close` marks a letter collects never outrun its remaining count:
/// they equal the smaller of that count and the number of non-exact
/// occurrences seen so far.
proof fn lemma_close_is_min(g: Seq<char>, t: Seq<char>, c: char, i: int)
    requires
        0 <= i,
    ensures
        count_close(g, t, c, i) == vstd::math::min(
            count_nonexact(g, t, c, i),
            count_unmatched(g, t, c, 5),
        ) || (count_nonexact(g, t, c, i) <= count_unmatched(g, t, c, 5) && count_close(g, t, c, i)
            == count_nonexact(g, t, c, i)),
    decreases i,
{
    lemma_count_bounds(g, t, c, 5);
    if i > 0 {
        lemma_close_is_min(g, t, c, i - 1);
        lemma_count_bounds(g, t, c, i - 1);
    }
}

/// A position marked `Exact` or `Close` for letter `c` is either an exact
/// hit on a target occurrence of `c` or a `Close` mark, so the credit is the
/// sum of the two counts.
proof fn lemma_credit_split(g: Seq<char>, t: Seq<char>, c: char, i: int)
    requires
        0 <= i,
    ensures
        count_credited(g, t, c, i) == count_exact(g, t, c, i) + count_close(g, t, c, i),
    decreases i,
{
    if i > 0 {
        lemma_credit_split(g, t, c, i - 1);
    }
}

/// Duplicate-letter safety: over a whole match, the `Exact` and `Close`
/// markings credited to any letter never exceed that letter's occurrence
/// count in the target.
pub proof fn lemma_duplicate_letter_safety(g: Seq<char>, t: Seq<char>, c: char)
    ensures
        count_credited(g, t, c, 5) <= count_target(t, c, 5),
{
    lemma_credit_split(g, t, c, 5);
    lemma_close_is_min(g, t, c, 5);
    lemma_target_split(g, t, c, 5);
    lemma_count_bounds(g, t, c, 5);
}

/// Guessing the target itself marks every position `Exact`.
pub proof fn lemma_exact_guess_all_exact(g: Seq<char>, t: Seq<char>)
    requires
        is_word(g),
        is_word(t),
        g == t,
    ensures
        all_exact(spec_match(g, t)),
{
}

/// An all-`Exact` match only arises when the guess is the target.
pub proof fn lemma_all_exact_is_target(g: Seq<char>, t: Seq<char>)
    requires
        is_word(g),
        is_word(t),
        all_exact(spec_match(g, t)),
    ensures
        g =~= t,
{
    assert forall|i: int| 0 <= i < 5 implies g[i] == t[i] by {
        assert(spec_match(g, t)[i] == LetterMatch::Exact);
    }
}

/// The two-pass match of a guess against the target.
pub fn match_guess(guess: &str, target: &str) -> (marks: Vec<LetterMatch>)
    requires
        is_word(guess@),
        is_word(target@),
    ensures
        marks@ == spec_match(guess@, target@),
{
    let ghost g = guess@;
    let ghost t = target@;

    // Remaining count per letter: target occurrences not hit exactly.
    let mut cnt: Vec<usize> = Vec::new();
    for k in 0..26
        invariant
            cnt.len() == k,
            forall|j: int| 0 <= j < k ==> cnt@[j] == 0,
    {
        cnt.push(0);
    }

    for j in 0..5
        invariant
            g == guess@ && t == target@,
            is_word(g),
            is_word(t),
            cnt.len() == 26,
            forall|c: char|
                is_lower_letter(c) ==> #[trigger] cnt@[letter_index(c)] == count_unmatched(
                    g,
                    t,
                    c,
                    j as int,
                ),
    {
        let ghost cnt0 = cnt@;
        let tc = target.get_char(j);
        let gc = guess.get_char(j);
        if gc != tc {
            let idx = exec_letter_index(tc);
            let old_count = cnt[idx];
            proof {
                lemma_count_bounds(g, t, t[j as int], j as int);
            }
            cnt.set(idx, old_count + 1);
        }
        proof {
            assert forall|c: char| is_lower_letter(c) implies #[trigger] cnt@[letter_index(c)]
                == count_unmatched(g, t, c, j + 1) by {
                assert(cnt0[letter_index(c)] == count_unmatched(g, t, c, j as int));
                assert(count_unmatched(g, t, c, j + 1) == count_unmatched(g, t, c, j as int) + if t[j as int]
                    == c && g[j as int] != t[j as int] {
                    1int
                } else {
                    0int
                });
                if g[j as int] != t[j as int] {
                    assert(cnt@ == cnt0.update(letter_index(t[j as int]), (cnt0[letter_index(
                        t[j as int],
                    )] + 1) as usize));
                    if c != t[j as int] {
                        lemma_letter_index_injective(c, t[j as int]);
                    }
                } else {
                    assert(cnt@ == cnt0);
                }
            }
        }
    }

    // Second pass: exact hits keep their position; other positions consume
    // the letter's remaining count while it lasts.
    let mut marks: Vec<LetterMatch> = Vec::new();
    for i in 0..5
        invariant
            g == guess@ && t == target@,
            is_word(g),
            is_word(t),
            cnt.len() == 26,
            marks.len() == i,
            forall|k: int| 0 <= k < i ==> #[trigger] marks@[k] == spec_mark(g, t, k),
            forall|c: char|
                is_lower_letter(c) ==> #[trigger] cnt@[letter_index(c)] == if count_nonexact(
                    g,
                    t,
                    c,
                    i as int,
                ) <= count_unmatched(g, t, c, 5) {
                    count_unmatched(g, t, c, 5) - count_nonexact(g, t, c, i as int)
                } else {
                    0int
                },
    {
        let ghost cnt0 = cnt@;
        let gc = guess.get_char(i);
        let tc = target.get_char(i);
        proof {
            lemma_count_bounds(g, t, g[i as int], i as int);
            lemma_count_bounds(g, t, g[i as int], 5);
            assert(cnt0[letter_index(g[i as int])] == if count_nonexact(g, t, g[i as int], i as int)
                <= count_unmatched(g, t, g[i as int], 5) {
                count_unmatched(g, t, g[i as int], 5) - count_nonexact(g, t, g[i as int], i as int)
            } else {
                0int
            });
        }
        if gc == tc {
            marks.push(LetterMatch::Exact);
        } else {
            let idx = exec_letter_index(gc);
            let remaining = cnt[idx];
            if remaining > 0 {
                cnt.set(idx, remaining - 1);
                marks.push(LetterMatch::Close);
            } else {
                marks.push(LetterMatch::Wrong);
            }
        }
        proof {
            assert(marks@[i as int] == spec_mark(g, t, i as int));
            assert forall|c: char| is_lower_letter(c) implies #[trigger] cnt@[letter_index(c)]
                == if count_nonexact(g, t, c, i + 1) <= count_unmatched(g, t, c, 5) {
                count_unmatched(g, t, c, 5) - count_nonexact(g, t, c, i + 1)
            } else {
                0int
            } by {
                assert(cnt0[letter_index(c)] == if count_nonexact(g, t, c, i as int)
                    <= count_unmatched(g, t, c, 5) {
                    count_unmatched(g, t, c, 5) - count_nonexact(g, t, c, i as int)
                } else {
                    0int
                });
                assert(count_nonexact(g, t, c, i + 1) == count_nonexact(g, t, c, i as int) + if g[i as int]
                    == c && g[i as int] != t[i as int] {
                    1int
                } else {
                    0int
                });
                if g[i as int] != t[i as int] && c != g[i as int] {
                    lemma_letter_index_injective(c, g[i as int]);
                }
            }
        }
    }
    proof {
        assert(marks@ =~= spec_match(g, t));
    }
    marks
}

/// Whether every mark of a computed match is `Exact`.
pub fn exec_all_exact(marks: &Vec<LetterMatch>) -> (r: bool)
    requires
        marks@.len() == 5,
    ensures
        r == all_exact(marks@),
{
    for i in 0..5
        invariant
            marks@.len() == 5,
            forall|j: int| 0 <= j < i ==> #[trigger] marks@[j] == LetterMatch::Exact,
    {
        let m = marks[i];
        if !(m == LetterMatch::Exact) {
            return false;
        }
    }
    true
}

} // verus!
