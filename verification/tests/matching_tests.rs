use wordle_bot::matching::{match_guess, LetterMatch};

use LetterMatch::{Close, Exact, Wrong};

#[test]
fn match_identical_words_is_all_exact() {
    assert_eq!(match_guess("alloy", "alloy"), vec![Exact, Exact, Exact, Exact, Exact]);
}

#[test]
fn match_credits_a_doubled_letter_only_as_often_as_the_target_has_it() {
    // "lloyd" against "alloy": the second l is exact; the first consumes the
    // target's remaining l; o and y are present elsewhere; d is absent.
    assert_eq!(match_guess("lloyd", "alloy"), vec![Close, Exact, Close, Close, Wrong]);
}

#[test]
fn match_double_letter_one_exact_one_wrong() {
    assert_eq!(match_guess("class", "crest"), vec![Exact, Wrong, Wrong, Exact, Wrong]);
}

#[test]
fn match_double_letter_one_close_one_wrong() {
    assert_eq!(match_guess("stars", "crest"), vec![Close, Close, Wrong, Close, Wrong]);
}

#[test]
fn match_double_letter_one_exact_one_close() {
    assert_eq!(match_guess("kills", "skill"), vec![Close, Close, Close, Exact, Close]);
}

#[test]
fn match_crate_against_crane() {
    assert_eq!(match_guess("crate", "crane"), vec![Exact, Exact, Exact, Wrong, Exact]);
}

#[test]
fn match_close_letters_exhaust_the_remaining_count() {
    // "lever" against "crane": the first e is close, the second finds the
    // count used up and is wrong; the final r is close.
    assert_eq!(match_guess("lever", "crane"), vec![Wrong, Close, Wrong, Wrong, Close]);
}
