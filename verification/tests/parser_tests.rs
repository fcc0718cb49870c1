use wordle_bot::parser::{parse, Action, ParseActionError};

#[test]
fn parse_guess_too_short_is_invalid_word() {
    match parse("/guess hi") {
        Err(ParseActionError::InvalidWord(w)) => assert_eq!(w, "hi"),
        other => panic!("expected InvalidWord, got {:?}", other),
    }
}

#[test]
fn parse_guess_hello() {
    match parse("/guess hello") {
        Ok(Action::Guess(w)) => assert_eq!(w, "hello"),
        other => panic!("expected Guess, got {:?}", other),
    }
}

#[test]
fn parse_chatter_is_nop() {
    assert_eq!(parse("hello"), Ok(Action::Nop));
}

#[test]
fn parse_unknown_command_is_unsupported() {
    match parse("/foo") {
        Err(ParseActionError::UnsupportedAction(t)) => assert_eq!(t, "/foo"),
        other => panic!("expected UnsupportedAction, got {:?}", other),
    }
}

#[test]
fn parse_guess_without_word_is_empty_word() {
    assert_eq!(parse("/guess"), Err(ParseActionError::EmptyWord));
    assert_eq!(parse("  /guess   "), Err(ParseActionError::EmptyWord));
}

#[test]
fn parse_start() {
    assert_eq!(parse("/start"), Ok(Action::Start));
    assert_eq!(parse("   /start"), Ok(Action::Start));
    assert_eq!(parse("/start now please"), Ok(Action::Start));
}

#[test]
fn parse_normalizes_to_lowercase() {
    match parse("/guess HeLLo") {
        Ok(Action::Guess(w)) => assert_eq!(w, "hello"),
        other => panic!("expected Guess, got {:?}", other),
    }
}

#[test]
fn parse_empty_and_blank_content_is_nop() {
    assert_eq!(parse(""), Ok(Action::Nop));
    assert_eq!(parse("   \t \n "), Ok(Action::Nop));
}

#[test]
fn parse_ignores_tokens_after_the_guess() {
    match parse("/guess hello world") {
        Ok(Action::Guess(w)) => assert_eq!(w, "hello"),
        other => panic!("expected Guess, got {:?}", other),
    }
}

#[test]
fn parse_rejects_non_letter_guesses() {
    match parse("/guess ab1de") {
        Err(ParseActionError::InvalidWord(w)) => assert_eq!(w, "ab1de"),
        other => panic!("expected InvalidWord, got {:?}", other),
    }
    match parse("/guess toolong") {
        Err(ParseActionError::InvalidWord(w)) => assert_eq!(w, "toolong"),
        other => panic!("expected InvalidWord, got {:?}", other),
    }
}

#[test]
fn parse_keeps_the_invalid_word_as_typed() {
    match parse("/guess HI") {
        Err(ParseActionError::InvalidWord(w)) => assert_eq!(w, "HI"),
        other => panic!("expected InvalidWord, got {:?}", other),
    }
}
