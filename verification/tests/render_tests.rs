use wordle_bot::parser::ParseActionError;
use wordle_bot::render::{render_parse_error, render_session_reply, welcome_message};
use wordle_bot::session::{GameSession, GuessOutcome};

#[test]
fn parse_errors_render_the_user_facing_notices() {
    assert_eq!(
        render_parse_error(&ParseActionError::InvalidWord("hi".to_string())),
        "\u{274c}  `hi` \u{4e3a}\u{65e0}\u{6548}\u{8bcd}\u{6c47}\u{ff0c}\u{8bf7}\u{786e}\u{4fdd}\u{5355}\u{8bcd}\u{4e3a}5\u{4e2a}\u{82f1}\u{6587}\u{5b57}\u{6bcd}\u{7ec4}\u{6210}"
    );
    let empty = render_parse_error(&ParseActionError::EmptyWord);
    assert!(empty.starts_with('\u{274c}'));
    assert!(empty.contains("5"));
    let unsupported = render_parse_error(&ParseActionError::UnsupportedAction("/foo".to_string()));
    assert!(unsupported.contains("`/foo`"));
    assert!(unsupported.contains("`/start`"));
    assert!(unsupported.contains("`/guess guess`"));
}

#[test]
fn the_welcome_message_states_the_rules() {
    let w = welcome_message();
    assert!(w.starts_with('\u{1f680}'));
    assert!(w.contains("`/guess guess`"));
    assert!(w.contains('\u{1f7e9}'));
    assert!(w.contains('\u{1f7e8}'));
    assert!(w.contains('\u{2b1b}'));
}

#[test]
fn a_winning_reply_reveals_the_target_the_tries_and_the_author() {
    let mut s = GameSession::new();
    s.apply_start("cigar".to_string());
    let out = s.apply_guess("cigar".to_string(), true, "alice".to_string());
    assert_eq!(out, GuessOutcome::Won);
    let reply = render_session_reply(&s, out, "cigar", "alice");
    assert_eq!(
        reply,
        "## cigar 1/6\n\n\u{1f7e9}\u{1f7e9}\u{1f7e9}\u{1f7e9}\u{1f7e9}  ***c*** ***i*** ***g*** ***a*** ***r***    @alice\n\n \u{606d}\u{559c}alice\u{ff0c}\u{5c0f}\u{9c7c}\u{5e72}\u{5949}\u{4e0a}\u{1f389}"
    );
}

#[test]
fn an_ongoing_reply_shows_the_history_and_the_alphabet_grid() {
    let mut s = GameSession::new();
    s.apply_start("crane".to_string());
    let out = s.apply_guess("crate".to_string(), true, "bob".to_string());
    assert_eq!(out, GuessOutcome::Ongoing);
    let reply = render_session_reply(&s, out, "crate", "bob");
    let expected_line =
        "\n\n\u{1f7e9}\u{1f7e9}\u{1f7e9}\u{2b1b}\u{1f7e9}  ***c*** ***r*** ***a*** ~~t~~ ***e***    @bob";
    let expected_grid = "\n\n***A*** B ***C*** D ***E*** F G \n\nH I J K L M N \n\nO P Q ***R*** S ~~T~~ U \n\nV W X Y Z ";
    assert_eq!(reply, format!("{}\n\n___\n\n {}", expected_line, expected_grid));
}

#[test]
fn a_losing_reply_reveals_the_target_and_six_tries() {
    let mut s = GameSession::new();
    s.apply_start("crane".to_string());
    let mut out = GuessOutcome::Ongoing;
    for w in ["stump", "light", "mousy", "block", "dwelt", "fjord"] {
        out = s.apply_guess(w.to_string(), true, "a".to_string());
    }
    assert_eq!(out, GuessOutcome::Lost);
    let reply = render_session_reply(&s, out, "fjord", "a");
    assert!(reply.starts_with("## crane 6/6\n\n"));
    assert!(reply.ends_with("\u{6e38}\u{620f}\u{7ed3}\u{675f}\u{ff0c}\u{518d}\u{63a5}\u{518d}\u{5389}\u{1f4aa}"));
}

#[test]
fn a_close_hint_is_downgraded_by_a_later_wrong_occurrence() {
    // Against "crane", "lever" classifies its first e as close and its
    // second as wrong, so the letter e ends struck through in the grid.
    let mut s = GameSession::new();
    s.apply_start("crane".to_string());
    let out = s.apply_guess("lever".to_string(), true, "bob".to_string());
    let reply = render_session_reply(&s, out, "lever", "bob");
    assert!(reply.contains("~~E~~"));
    assert!(reply.contains("~~L~~"));
    assert!(reply.contains(" R "));
}

#[test]
fn a_guess_with_no_game_running_renders_the_start_hint() {
    let s = GameSession::new();
    let reply = render_session_reply(&s, GuessOutcome::NoActiveGame, "crane", "bob");
    assert!(reply.contains("`/start`"));
}

#[test]
fn a_word_outside_the_dictionary_renders_its_own_notice() {
    let mut s = GameSession::new();
    s.apply_start("crane".to_string());
    let out = s.apply_guess("zzzzz".to_string(), false, "bob".to_string());
    let reply = render_session_reply(&s, out, "zzzzz", "bob");
    assert_eq!(
        reply,
        "\u{274c}  `zzzzz` \u{4e3a}\u{65e0}\u{6548}\u{8bcd}\u{6c47}\u{ff0c}\u{8bf7}\u{786e}\u{4fdd}\u{5355}\u{8bcd}\u{4e3a}5\u{4e2a}\u{82f1}\u{6587}\u{5b57}\u{6bcd}\u{7ec4}\u{6210}\u{4e14}\u{6709}\u{6548}"
    );
}
