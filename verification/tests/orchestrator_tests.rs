use wordle_bot::orchestrator::{OrchestratorState, Post, StepOutput};
use wordle_bot::session::{Outcome, SessionState};

fn post(floor: u64, id: u64, content: &str, author: &str) -> Post {
    Post { floor, id, content: content.to_string(), author: author.to_string() }
}

#[test]
fn a_start_then_the_day_answer_wins_end_to_end() {
    // Day 0 picks the first word of the solution list, "cigar".
    let mut orch = OrchestratorState::new(0);
    let page = vec![
        post(1, 10, "/start", "alice"),
        post(2, 20, "/guess cigar", "alice"),
    ];
    let outs: Vec<StepOutput> = orch.process_page(&page, 0);
    assert_eq!(outs.len(), 2);
    assert!(outs[0].reply.as_ref().unwrap().starts_with('\u{1f680}'));
    assert_eq!(outs[0].appreciate, None);
    let win_reply = outs[1].reply.as_ref().unwrap();
    assert!(win_reply.starts_with("## cigar 1/6"));
    assert!(win_reply.contains("@alice"));
    assert_eq!(outs[1].appreciate, Some(20));
    assert_eq!(orch.cursor, 2);
    assert_eq!(orch.session.state(), SessionState::Finished(Outcome::Win));
}

#[test]
fn chatter_advances_the_cursor_and_asks_for_nothing() {
    let mut orch = OrchestratorState::new(5);
    let page = vec![post(6, 1, "good morning", "a"), post(9, 2, "anyone?", "b")];
    let outs = orch.process_page(&page, 0);
    assert_eq!(orch.cursor, 9);
    assert!(outs[0].reply.is_none());
    assert!(outs[1].reply.is_none());
    assert_eq!(orch.session.state(), SessionState::NotStarted);
}

#[test]
fn the_cursor_never_moves_back_even_when_replies_would_fail() {
    // Sends are best-effort and outside the state: whatever becomes of the
    // returned replies, the cursor has already advanced.
    let mut orch = OrchestratorState::new(0);
    let mut last = 0;
    for (floor, text) in [(3, "/start"), (4, "/guess xxxxx"), (7, "/foo"), (8, "hi")] {
        let out = orch.process_post(&post(floor, floor, text, "a"));
        drop(out.reply);  // as if every send failed
        assert!(orch.cursor >= last);
        last = orch.cursor;
        assert_eq!(orch.cursor, floor);
    }
}

#[test]
fn replaying_a_page_against_a_fresh_orchestrator_reproduces_the_state() {
    let page = vec![
        post(1, 10, "/start", "a"),
        post(2, 20, "/guess crane", "b"),
        post(3, 30, "/guess stump", "c"),
    ];
    let mut first = OrchestratorState::new(0);
    let outs1 = first.process_page(&page, 7);
    let mut second = OrchestratorState::new(0);
    let outs2 = second.process_page(&page, 7);
    assert_eq!(first.cursor, second.cursor);
    assert_eq!(first.session.state(), second.session.state());
    assert_eq!(first.session.history_len(), second.session.history_len());
    assert_eq!(first.session.target(), second.session.target());
    let replies1: Vec<Option<String>> = outs1.into_iter().map(|o| o.reply).collect();
    let replies2: Vec<Option<String>> = outs2.into_iter().map(|o| o.reply).collect();
    assert_eq!(replies1, replies2);
}

#[test]
fn a_guess_the_dictionary_rejects_earns_its_notice_and_no_try() {
    let mut orch = OrchestratorState::new(0);
    orch.process_post_at(&post(1, 1, "/start", "a"), 0);
    let out = orch.process_post_at(&post(2, 2, "/guess zzzzz", "a"), 0);
    assert_eq!(
        out.reply.unwrap(),
        "\u{274c}  `zzzzz` \u{4e3a}\u{65e0}\u{6548}\u{8bcd}\u{6c47}\u{ff0c}\u{8bf7}\u{786e}\u{4fdd}\u{5355}\u{8bcd}\u{4e3a}5\u{4e2a}\u{82f1}\u{6587}\u{5b57}\u{6bcd}\u{7ec4}\u{6210}\u{4e14}\u{6709}\u{6548}"
    );
    assert_eq!(orch.session.history_len(), 0);
    assert_eq!(orch.session.state(), SessionState::InProgress);
}

#[test]
fn a_guess_before_any_start_earns_the_start_hint() {
    let mut orch = OrchestratorState::new(0);
    let out = orch.process_post_at(&post(1, 1, "/guess crane", "a"), 0);
    assert!(out.reply.unwrap().contains("`/start`"));
    assert_eq!(out.appreciate, None);
    assert_eq!(orch.session.state(), SessionState::NotStarted);
}

#[test]
fn a_second_start_is_refused_with_a_notice() {
    let mut orch = OrchestratorState::new(0);
    orch.process_post_at(&post(1, 1, "/start", "a"), 0);
    let out = orch.process_post_at(&post(2, 2, "/start", "b"), 0);
    assert!(out.reply.unwrap().contains("\u{5df2}\u{7ecf}\u{5f00}\u{59cb}"));
    assert_eq!(orch.session.state(), SessionState::InProgress);
}

#[test]
fn a_parse_error_earns_its_notice_and_changes_no_game_state() {
    let mut orch = OrchestratorState::new(0);
    let out = orch.process_post_at(&post(1, 1, "/frobnicate", "a"), 0);
    assert!(out.reply.unwrap().contains("`/frobnicate`"));
    assert_eq!(orch.session.state(), SessionState::NotStarted);
    assert_eq!(orch.cursor, 1);
}

#[test]
fn the_daily_answer_is_accepted_as_a_guess() {
    // The solution list is part of the acceptable guesses: starting a game
    // and guessing that day's answer must win, not be rejected.
    let mut orch = OrchestratorState::new(0);
    orch.process_post_at(&post(1, 1, "/start", "a"), 42);
    let target = orch.session.target().clone();
    let out = orch.process_post_at(&post(2, 2, &format!("/guess {}", target), "a"), 42);
    assert_eq!(out.appreciate, Some(2));
    assert_eq!(orch.session.state(), SessionState::Finished(Outcome::Win));
}
