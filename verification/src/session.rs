//! The single game session: a small state machine over verified matching.
//!
//! A session is `NotStarted` until a `/start`, `InProgress` while guesses
//! come in, and `Finished` once a guess hits the target (`Win`) or the sixth
//! accepted guess misses (`Lose`).  A finished session accepts no further
//! guesses until a fresh `/start` resets it.  Guesses the dictionary rejects
//! are not recorded and consume no try.

use vstd::prelude::*;
use crate::hints::{Alphabet, spec_fresh_hints, spec_update_hints, lemma_update_hints_len};
use crate::matching::{
    LetterMatch, all_exact, spec_match, match_guess, exec_all_exact, lemma_exact_guess_all_exact,
};
use crate::words::is_word;

verus! {

/// How a finished game ended.
#[derive(Clone, Copy, Debug, PartialEq, Eq, Structural)]
pub enum Outcome {
    Win,
    Lose,
}

/// Where the session stands.
#[derive(Clone, Copy, Debug, PartialEq, Eq, Structural)]
pub enum SessionState {
    /// No game has been started, or none since the last one finished
    /// and was reset.
    NotStarted,
    /// A game is running and accepts guesses.
    InProgress,
    /// The game ended; a fresh start is needed before further guesses.
    Finished(Outcome),
}

/// One accepted guess: the word, its marks against the target, and who
/// submitted it.
#[derive(Debug, Clone)]
pub struct GuessRecord {
    pub word: String,
    pub marks: Vec<LetterMatch>,
    pub author: String,
}

/// The mathematical shape of a [`GuessRecord`].
#[verifier::ext_equal]
pub struct GuessRecordV {
    pub word: Seq<char>,
    pub marks: Seq<LetterMatch>,
    pub author: Seq<char>,
}

impl View for GuessRecord {
    type V = GuessRecordV;

    open spec fn view(&self) -> GuessRecordV {
        GuessRecordV { word: self.word@, marks: self.marks@, author: self.author@ }
    }
}

/// What a submitted guess did to the session.
#[derive(Clone, Copy, Debug, PartialEq, Eq, Structural)]
pub enum GuessOutcome {
    /// No game is running: the guess is ignored.
    NoActiveGame,
    /// The dictionary rejects the word: nothing is recorded, no try is
    /// consumed.
    NotInDictionary,
    /// The guess was recorded and the game goes on.
    Ongoing,
    /// The guess hit the target: the game is won.
    Won,
    /// The sixth recorded guess missed: the game is lost.
    Lost,
}

/// The mathematical shape of a [`GameSession`].
#[verifier::ext_equal]
pub struct SessionV {
    pub state: SessionState,
    pub target: Seq<char>,
    pub history: Seq<GuessRecordV>,
    pub hints: Seq<LetterMatch>,
}

/// The session bound to one thread.
#[derive(Debug, Clone)]
pub struct GameSession {
    pub state: SessionState,
    pub target: String,
    pub history: Vec<GuessRecord>,
    pub hints: Alphabet,
}

impl View for GameSession {
    type V = SessionV;

    open spec fn view(&self) -> SessionV {
        SessionV {
            state: self.state,
            target: self.target@,
            history: self.history@.map_values(|r: GuessRecord| r@),
            hints: self.hints@,
        }
    }
}

/// A recorded guess fits its session: a playable word, marked against the
/// session's target by the match engine.
pub open spec fn wf_record(r: GuessRecordV, target: Seq<char>) -> bool {
    &&& is_word(r.word)
    &&& r.marks == spec_match(r.word, target)
}

/// Well-formedness of a session: the target is a playable word, the hint
/// table covers the alphabet, at most six guesses are ever held, a running
/// game has room for another guess, and every recorded guess is marked
/// against the target.
pub open spec fn wf(s: SessionV) -> bool {
    &&& is_word(s.target)
    &&& s.hints.len() == 26
    &&& s.history.len() <= 6
    &&& (s.state is InProgress ==> s.history.len() < 6)
    &&& forall|i: int| 0 <= i < s.history.len() ==> wf_record(#[trigger] s.history[i], s.target)
}

/// The session a genuine start yields: running, with the given target and
/// nothing recorded.
pub open spec fn spec_fresh_session(target: Seq<char>) -> SessionV {
    SessionV {
        state: SessionState::InProgress,
        target,
        history: Seq::empty(),
        hints: spec_fresh_hints(),
    }
}

/// What `Start` does: a fresh session when none is running; an unchanged
/// session and a refusal when one is.
pub open spec fn spec_start(s: SessionV, target: Seq<char>) -> (SessionV, bool) {
    if s.state is InProgress {
        (s, false)
    } else {
        (spec_fresh_session(target), true)
    }
}

/// What a guess does.  Without a running game, or with a word the
/// dictionary rejects, the session is unchanged.  Otherwise the word is
/// marked against the target, recorded, folded into the hints, and the game
/// ends won on an all-exact match, lost on the sixth miss.
pub open spec fn spec_guess(s: SessionV, w: Seq<char>, in_dict: bool, author: Seq<char>) -> (
    SessionV,
    GuessOutcome,
) {
    if !(s.state is InProgress) {
        (s, GuessOutcome::NoActiveGame)
    } else if !in_dict {
        (s, GuessOutcome::NotInDictionary)
    } else {
        let marks = spec_match(w, s.target);
        let history = s.history.push(GuessRecordV { word: w, marks, author });
        let hints = spec_update_hints(s.hints, w, marks, 5);
        if all_exact(marks) {
            (
                SessionV { state: SessionState::Finished(Outcome::Win), history, hints, ..s },
                GuessOutcome::Won,
            )
        } else if history.len() == 6 {
            (
                SessionV { state: SessionState::Finished(Outcome::Lose), history, hints, ..s },
                GuessOutcome::Lost,
            )
        } else {
            (SessionV { state: SessionState::InProgress, history, hints, ..s }, GuessOutcome::Ongoing)
        }
    }
}

impl GameSession {
    /// A session with no game started yet.  The placeholder target is never
    /// revealed: it is replaced on the first genuine start.
    pub fn new() -> (s: GameSession)
        ensures
            s@.state == SessionState::NotStarted,
            s@.history.len() == 0,
            s@.hints == spec_fresh_hints(),
            wf(s@),
    {
        proof {
            reveal_strlit("aback");
        }
        let target = String::from_str("aback");
        assert(is_word(target@));
        GameSession {
            state: SessionState::NotStarted,
            target,
            history: Vec::new(),
            hints: Alphabet::new(),
        }
    }

    /// Apply `Start` with the target the dictionary picked for today.
    /// Returns whether a fresh game actually began.
    pub fn apply_start(&mut self, target: String) -> (started: bool)
        requires
            wf(old(self)@),
            is_word(target@),
        ensures
            (final(self)@, started) == spec_start(old(self)@, target@),
            wf(final(self)@),
    {
        match self.state {
            SessionState::InProgress => false,
            _ => {
                self.state = SessionState::InProgress;
                self.target = target;
                self.history = Vec::new();
                self.hints = Alphabet::new();
                proof {
                    assert(self@ =~= spec_fresh_session(target@));
                }
                true
            },
        }
    }

    /// Apply a guess.  `in_dict` is the dictionary's verdict on the word,
    /// obtained by the caller; the session trusts it for this word only and
    /// behaves the same whatever it is.
    pub fn apply_guess(&mut self, word: String, in_dict: bool, author: String) -> (out:
        GuessOutcome)
        requires
            wf(old(self)@),
            is_word(word@),
        ensures
            (final(self)@, out) == spec_guess(old(self)@, word@, in_dict, author@),
            wf(final(self)@),
    {
        match self.state {
            SessionState::InProgress => {},
            _ => {
                return GuessOutcome::NoActiveGame;
            },
        }
        if !in_dict {
            return GuessOutcome::NotInDictionary;
        }
        let marks = match_guess(word.as_str(), self.target.as_str());
        let won = exec_all_exact(&marks);
        self.hints.absorb(word.as_str(), &marks);
        proof {
            lemma_update_hints_len(old(self)@.hints, word@, marks@, 5);
        }
        let ghost rec_v = GuessRecordV { word: word@, marks: marks@, author: author@ };
        let rec = GuessRecord { word, marks, author };
        assert(rec@ =~= rec_v);
        self.history.push(rec);
        proof {
            assert(self@.history =~= old(self)@.history.push(rec_v));
        }
        let out: GuessOutcome;
        if won {
            self.state = SessionState::Finished(Outcome::Win);
            out = GuessOutcome::Won;
        } else if self.history.len() == 6 {
            self.state = SessionState::Finished(Outcome::Lose);
            out = GuessOutcome::Lost;
        } else {
            out = GuessOutcome::Ongoing;
        }
        proof {
            assert(self@ =~= spec_guess(old(self)@, word@, in_dict, author@).0);
        }
        out
    }

    /// Where the session stands.
    pub fn state(&self) -> (r: SessionState)
        ensures
            r == self@.state,
    {
        self.state
    }

    /// How many guesses the running or finished game has recorded.
    pub fn history_len(&self) -> (r: usize)
        ensures
            r == self@.history.len(),
    {
        self.history.len()
    }

    /// The target word of the current game.
    pub fn target(&self) -> (r: &String)
        ensures
            r@ == self@.target,
    {
        &self.target
    }
}

/// A session never holds more than six guesses, whatever a guess does
/// to it.
pub proof fn lemma_guess_cap(s: SessionV, w: Seq<char>, in_dict: bool, author: Seq<char>)
    requires
        wf(s),
    ensures
        spec_guess(s, w, in_dict, author).0.history.len() <= 6,
        spec_guess(s, w, in_dict, author).0.state is InProgress ==> spec_guess(
            s,
            w,
            in_dict,
            author,
        ).0.history.len() < 6,
{
}

/// The sixth recorded guess, when it is not an exact hit, forces the game
/// to end lost.
pub proof fn lemma_sixth_guess_loses(s: SessionV, w: Seq<char>, author: Seq<char>)
    requires
        wf(s),
        s.state is InProgress,
        s.history.len() == 5,
        !all_exact(spec_match(w, s.target)),
    ensures
        spec_guess(s, w, true, author).0.state == SessionState::Finished(Outcome::Lose),
        spec_guess(s, w, true, author).1 == GuessOutcome::Lost,
{
}

/// Guessing the target itself always ends the game won, whatever the guess
/// count so far.  The target is always a valid guess: the dictionary
/// accepts every word of the solution list.
pub proof fn lemma_target_guess_wins(s: SessionV, author: Seq<char>)
    requires
        wf(s),
        s.state is InProgress,
    ensures
        spec_guess(s, s.target, true, author).0.state == SessionState::Finished(Outcome::Win),
        spec_guess(s, s.target, true, author).1 == GuessOutcome::Won,
{
    lemma_exact_guess_all_exact(s.target, s.target);
}

} // verus!
