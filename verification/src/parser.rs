//! The command grammar: turning a reply's text into a game action.
//!
//! The text is trimmed and split on whitespace.  A first token that does not
//! start with `/` is ordinary chatter and parses to `Nop`.  `/start` starts a
//! game; `/guess <word>` submits a guess, where the word must be exactly five
//! ASCII letters and is normalized to lowercase; any other leading `/` token
//! is an unsupported action.  All errors are user-facing and non-fatal.

use vstd::prelude::*;
use crate::words::{
    is_word, is_ascii_letter, is_lower_letter, to_lower, to_lower_seq, exec_is_ascii_letter,
    exec_to_lower, exec_letter_index,
};

verus! {

/// A game command carried by one reply.
#[derive(Debug, Clone, PartialEq, Eq)]
pub enum Action {
    /// Ordinary chatter: ignored, no reply owed.
    Nop,
    /// `/start`: begin a fresh game.
    Start,
    /// `/guess <word>`: submit the five-letter word, already lowercased.
    Guess(String),
}

/// A rejected command, surfaced to the player as a reply.
#[derive(Debug, Clone, PartialEq, Eq)]
pub enum ParseActionError {
    /// The guessed word is not five ASCII letters; carries the word as typed.
    InvalidWord(String),
    /// `/guess` came with no word at all.
    EmptyWord,
    /// A leading `/` token other than `/start` or `/guess`; carries the token.
    UnsupportedAction(String),
}

/// The mathematical shape of an [`Action`].
pub enum ActionV {
    Nop,
    Start,
    Guess(Seq<char>),
}

/// The mathematical shape of a [`ParseActionError`].
pub enum ParseErrorV {
    InvalidWord(Seq<char>),
    EmptyWord,
    UnsupportedAction(Seq<char>),
}

impl View for Action {
    type V = ActionV;

    open spec fn view(&self) -> ActionV {
        match self {
            Action::Nop => ActionV::Nop,
            Action::Start => ActionV::Start,
            Action::Guess(w) => ActionV::Guess(w@),
        }
    }
}

impl View for ParseActionError {
    type V = ParseErrorV;

    open spec fn view(&self) -> ParseErrorV {
        match self {
            ParseActionError::InvalidWord(w) => ParseErrorV::InvalidWord(w@),
            ParseActionError::EmptyWord => ParseErrorV::EmptyWord,
            ParseActionError::UnsupportedAction(t) => ParseErrorV::UnsupportedAction(t@),
        }
    }
}

/// The view of a whole parse result.
pub open spec fn parse_view(r: Result<Action, ParseActionError>) -> Result<ActionV, ParseErrorV> {
    match r {
        Ok(a) => Ok(a@),
        Err(e) => Err(e@),
    }
}

/// Whitespace for the purposes of the grammar.
pub open spec fn is_space(c: char) -> bool {
    c == ' ' || c == '\t' || c == '\n' || c == '\r'
}

/// The first non-space position at or after `i`.
pub open spec fn skip_spaces(s: Seq<char>, i: int) -> int
    decreases s.len() - i,
{
    if i >= s.len() || !is_space(s[i]) {
        i
    } else {
        skip_spaces(s, i + 1)
    }
}

/// The first space position at or after `i`: the end of the token
/// starting at `i`.
pub open spec fn token_end(s: Seq<char>, i: int) -> int
    decreases s.len() - i,
{
    if i >= s.len() || is_space(s[i]) {
        i
    } else {
        token_end(s, i + 1)
    }
}

/// A guessable token: exactly five ASCII letters of either case.
pub open spec fn is_guessable(tok: Seq<char>) -> bool {
    tok.len() == 5 && forall|i: int| 0 <= i < 5 ==> is_ascii_letter(#[trigger] tok[i])
}

/// What parsing a reply's text yields.
///
/// The first whitespace-separated token decides: absent or not starting
/// with `/`, the text is chatter (`Nop`); `/start` and `/guess` are the two
/// commands; anything else with a leading `/` is unsupported.  A guessed
/// word must be five ASCII letters and is normalized to lowercase; the
/// errors carry the offending token as typed.
pub open spec fn spec_parse(s: Seq<char>) -> Result<ActionV, ParseErrorV> {
    let a = skip_spaces(s, 0);
    let b = token_end(s, a);
    let tok0 = s.subrange(a, b);
    if tok0.len() == 0 || tok0[0] != '/' {
        Ok(ActionV::Nop)
    } else if tok0 =~= "/start"@ {
        Ok(ActionV::Start)
    } else if tok0 =~= "/guess"@ {
        let a1 = skip_spaces(s, b);
        let b1 = token_end(s, a1);
        let tok1 = s.subrange(a1, b1);
        if tok1.len() == 0 {
            Err(ParseErrorV::EmptyWord)
        } else if is_guessable(tok1) {
            Ok(ActionV::Guess(to_lower_seq(tok1)))
        } else {
            Err(ParseErrorV::InvalidWord(tok1))
        }
    } else {
        Err(ParseErrorV::UnsupportedAction(tok0))
    }
}

/// Lowercasing an ASCII letter gives a lowercase letter.
proof fn lemma_lower_of_letter(c: char)
    requires
        is_ascii_letter(c),
    ensures
        is_lower_letter(to_lower(c)),
{
}

/// A guessable token lowercases to a playable word.
pub proof fn lemma_guessable_lowers_to_word(tok: Seq<char>)
    requires
        is_guessable(tok),
    ensures
        is_word(to_lower_seq(tok)),
{
    assert forall|i: int| 0 <= i < 5 implies is_lower_letter(
        #[trigger] to_lower_seq(tok)[i],
    ) by {
        lemma_lower_of_letter(tok[i]);
    }
}

/// A word handed out by a successful `/guess` parse is always playable:
/// five ASCII letters, lowercased.
pub proof fn lemma_parsed_guess_is_word(s: Seq<char>)
    ensures
        spec_parse(s) matches Ok(ActionV::Guess(w)) ==> is_word(w),
{
    let a = skip_spaces(s, 0);
    let b = token_end(s, a);
    let tok0 = s.subrange(a, b);
    if !(tok0.len() == 0 || tok0[0] != '/') && !(tok0 =~= "/start"@) && (tok0 =~= "/guess"@) {
        let a1 = skip_spaces(s, b);
        let b1 = token_end(s, a1);
        let tok1 = s.subrange(a1, b1);
        if tok1.len() != 0 && is_guessable(tok1) {
            lemma_guessable_lowers_to_word(tok1);
        }
    }
}

/// Character-wise equality of two string slices.
fn str_eq(a: &str, b: &str) -> (r: bool)
    ensures
        r == (a@ =~= b@),
{
    let n = a.unicode_len();
    let m = b.unicode_len();
    if n != m {
        return false;
    }
    for i in 0..n
        invariant
            n == a@.len() == b@.len(),
            forall|j: int| 0 <= j < i ==> a@[j] == b@[j],
    {
        if a.get_char(i) != b.get_char(i) {
            return false;
        }
    }
    true
}

/// Append the lowercase letter `c` to a string under construction.
fn append_lower_letter(dst: &mut String, c: char)
    requires
        is_lower_letter(c),
    ensures
        final(dst)@ == old(dst)@.push(c),
{
    let lower = "abcdefghijklmnopqrstuvwxyz";
    proof {
        reveal_strlit("abcdefghijklmnopqrstuvwxyz");
    }
    let idx = exec_letter_index(c);
    let piece = lower.substring_char(idx, idx + 1);
    assert(piece@ =~= seq![c]);
    dst.append(piece);
    assert(dst@ =~= old(dst)@.push(c));
}

/// Whether the token qualifies as a guess: five ASCII letters.
fn exec_is_guessable(tok: &str) -> (r: bool)
    ensures
        r == is_guessable(tok@),
{
    let n = tok.unicode_len();
    if n != 5 {
        return false;
    }
    for i in 0..5
        invariant
            n == tok@.len() == 5,
            forall|j: int| 0 <= j < i ==> is_ascii_letter(#[trigger] tok@[j]),
    {
        if !exec_is_ascii_letter(tok.get_char(i)) {
            return false;
        }
    }
    true
}

/// Parse one reply's text into an action.
///
/// The result is exactly [`spec_parse`] of the text: chatter gives `Nop`,
/// `/start` and `/guess <five-letter word>` give their actions, and every
/// rejected command names its error.
pub fn parse(content: &str) -> (r: Result<Action, ParseActionError>)
    ensures
        parse_view(r) == spec_parse(content@),
{
    let ghost s = content@;
    let n = content.unicode_len();

    let mut a: usize = 0;
    while a < n && exec_is_space(content.get_char(a))
        invariant
            s == content@,
            n == s.len(),
            0 <= a <= n,
            skip_spaces(s, 0) == skip_spaces(s, a as int),
        decreases n - a,
    {
        a = a + 1;
    }
    assert(skip_spaces(s, 0) == a as int);

    let mut b: usize = a;
    while b < n && !exec_is_space(content.get_char(b))
        invariant
            s == content@,
            n == s.len(),
            a <= b <= n,
            token_end(s, a as int) == token_end(s, b as int),
        decreases n - b,
    {
        b = b + 1;
    }
    assert(token_end(s, a as int) == b as int);

    let tok0 = content.substring_char(a, b);
    if b == a || tok0.get_char(0) != '/' {
        return Ok(Action::Nop);
    }
    if str_eq(tok0, "/start") {
        return Ok(Action::Start);
    }
    if !str_eq(tok0, "/guess") {
        return Err(ParseActionError::UnsupportedAction(tok0.to_owned()));
    }

    let mut a1: usize = b;
    while a1 < n && exec_is_space(content.get_char(a1))
        invariant
            s == content@,
            n == s.len(),
            b <= a1 <= n,
            skip_spaces(s, b as int) == skip_spaces(s, a1 as int),
        decreases n - a1,
    {
        a1 = a1 + 1;
    }
    assert(skip_spaces(s, b as int) == a1 as int);

    let mut b1: usize = a1;
    while b1 < n && !exec_is_space(content.get_char(b1))
        invariant
            s == content@,
            n == s.len(),
            a1 <= b1 <= n,
            token_end(s, a1 as int) == token_end(s, b1 as int),
        decreases n - b1,
    {
        b1 = b1 + 1;
    }
    assert(token_end(s, a1 as int) == b1 as int);

    let tok1 = content.substring_char(a1, b1);
    if b1 == a1 {
        return Err(ParseActionError::EmptyWord);
    }

    if !exec_is_guessable(tok1) {
        return Err(ParseActionError::InvalidWord(tok1.to_owned()));
    }

    let mut word = String::new();
    for i in 0..5
        invariant
            tok1@.len() == 5,
            is_guessable(tok1@),
            word@ =~= to_lower_seq(tok1@).subrange(0, i as int),
    {
        let c = exec_to_lower(tok1.get_char(i));
        proof {
            lemma_lower_of_letter(tok1@[i as int]);
        }
        append_lower_letter(&mut word, c);
        proof {
            assert(word@ =~= to_lower_seq(tok1@).subrange(0, i + 1));
        }
    }
    assert(word@ =~= to_lower_seq(tok1@));
    Ok(Action::Guess(word))
}

/// Whether a character separates tokens.
fn exec_is_space(c: char) -> (r: bool)
    ensures
        r == is_space(c),
{
    c == ' ' || c == '\t' || c == '\n' || c == '\r'
}

} // verus!
