use wordle_bot::matching::LetterMatch::{Exact, Wrong};
use wordle_bot::session::{GameSession, GuessOutcome, Outcome, SessionState};

fn started(target: &str) -> GameSession {
    let mut s = GameSession::new();
    assert!(s.apply_start(target.to_string()));
    s
}

#[test]
fn fresh_session_is_not_started() {
    let s = GameSession::new();
    assert_eq!(s.state(), SessionState::NotStarted);
    assert_eq!(s.history_len(), 0);
}

#[test]
fn start_begins_a_game_and_start_again_is_refused() {
    let mut s = GameSession::new();
    assert!(s.apply_start("crane".to_string()));
    assert_eq!(s.state(), SessionState::InProgress);
    assert_eq!(s.target(), "crane");
    assert!(!s.apply_start("cigar".to_string()));
    assert_eq!(s.target(), "crane");
}

#[test]
fn guessing_the_target_wins_whatever_the_guess_count() {
    let mut s = started("crane");
    assert_eq!(s.apply_guess("stare".to_string(), true, "a".to_string()), GuessOutcome::Ongoing);
    assert_eq!(s.apply_guess("crane".to_string(), true, "b".to_string()), GuessOutcome::Won);
    assert_eq!(s.state(), SessionState::Finished(Outcome::Win));
    assert_eq!(s.history_len(), 2);
}

#[test]
fn the_sixth_miss_loses_and_no_seventh_guess_is_accepted() {
    let mut s = started("crane");
    for w in ["stump", "light", "mousy", "block", "dwelt"] {
        assert_eq!(s.apply_guess(w.to_string(), true, "a".to_string()), GuessOutcome::Ongoing);
        assert_eq!(s.state(), SessionState::InProgress);
    }
    assert_eq!(s.apply_guess("fjord".to_string(), true, "a".to_string()), GuessOutcome::Lost);
    assert_eq!(s.state(), SessionState::Finished(Outcome::Lose));
    assert_eq!(s.history_len(), 6);
    assert_eq!(
        s.apply_guess("crane".to_string(), true, "a".to_string()),
        GuessOutcome::NoActiveGame
    );
    assert_eq!(s.history_len(), 6);
}

#[test]
fn a_rejected_word_consumes_no_try() {
    let mut s = started("crane");
    assert_eq!(
        s.apply_guess("zzzzz".to_string(), false, "a".to_string()),
        GuessOutcome::NotInDictionary
    );
    assert_eq!(s.state(), SessionState::InProgress);
    assert_eq!(s.history_len(), 0);
}

#[test]
fn guess_before_start_is_ignored() {
    let mut s = GameSession::new();
    assert_eq!(
        s.apply_guess("crane".to_string(), true, "a".to_string()),
        GuessOutcome::NoActiveGame
    );
    assert_eq!(s.state(), SessionState::NotStarted);
}

#[test]
fn a_finished_session_can_be_started_afresh() {
    let mut s = started("crane");
    assert_eq!(s.apply_guess("crane".to_string(), true, "a".to_string()), GuessOutcome::Won);
    assert!(s.apply_start("cigar".to_string()));
    assert_eq!(s.state(), SessionState::InProgress);
    assert_eq!(s.history_len(), 0);
    assert_eq!(s.target(), "cigar");
}

#[test]
fn recorded_guesses_carry_their_marks() {
    let mut s = started("crane");
    s.apply_guess("crate".to_string(), true, "bob".to_string());
    assert_eq!(s.history.len(), 1);
    assert_eq!(s.history[0].word, "crate");
    assert_eq!(s.history[0].author, "bob");
    assert_eq!(s.history[0].marks, vec![Exact, Exact, Exact, Wrong, Exact]);
}
