//! The response renderer: session state to reply text.
//!
//! Every reply is a pure function of the session's visible state, the
//! triggering guess and its author.  A guess reply shows each recorded
//! guess as a line of five coloured squares followed by the guessed letters
//! (exact letters emphasized, close ones plain, wrong ones struck through)
//! and the submitting author; while the game runs, the cumulative alphabet
//! hint grid follows; on termination the target word, the number of tries
//! and a win or lose message frame the history.

use vstd::prelude::*;
use crate::hints::Alphabet;
use crate::matching::LetterMatch;
use crate::parser::{ParseActionError, ParseErrorV};
use crate::session::{GameSession, GuessOutcome, GuessRecord, GuessRecordV, SessionV, wf, wf_record};

verus! {

/// The reply to a command that did not parse.
pub open spec fn spec_render_parse_error(e: ParseErrorV) -> Seq<char> {
    match e {
        ParseErrorV::InvalidWord(w) => "❌  `"@ + w + "` 为无效词汇，请确保单词为5个英文字母组成"@,
        ParseErrorV::EmptyWord => "❌  猜测单词为空，请输入5个字母组成的英文单词"@,
        ParseErrorV::UnsupportedAction(t) => "❌  `"@ + t
            + "` 为不支持的动作，请输入`/start`或`/guess guess`"@,
    }
}

/// The greeting a genuine start posts: the rules of the game.
pub open spec fn msg_welcome() -> Seq<char> {
    "🚀  Wordle 游戏开始，请输入`/guess guess`猜词，谜底为5位单词，一共6次机会，首先猜对的用户获胜。\n\n每次反馈都包括猜测的历史记录和字母表，历史记录的方格会显示三种颜色，表示猜测和答案的接近程度：\n\n+ 🟩代表该字母正确，对应字母***斜体加粗***\n\n+ 🟨代表谜底里有该字母但位置不对\n\n+ ⬛代表谜底没有该字母，对应字母~~删除~~\n\n字母表中***斜体加粗***代表谜底里有该字母，~~删除~~代表谜底没有该字母"@
}

/// The notice for a `/start` while a game is already running.
pub open spec fn msg_already_started() -> Seq<char> {
    "❌  游戏已经开始，请输入`/guess guess`猜词"@
}

/// The notice for a guess while no game is running.
pub open spec fn msg_not_started() -> Seq<char> {
    "❌  游戏还未开始，请回复`/start`以开始游戏"@
}

/// The notice for a guess the dictionary rejects.
pub open spec fn msg_not_in_dictionary(w: Seq<char>) -> Seq<char> {
    "❌  `"@ + w + "` 为无效词汇，请确保单词为5个英文字母组成且有效"@
}

/// The coloured square for one mark.
pub open spec fn square(m: LetterMatch) -> Seq<char> {
    match m {
        LetterMatch::Exact => "🟩"@,
        LetterMatch::Close => "🟨"@,
        LetterMatch::Wrong => "⬛"@,
    }
}

/// The squares of the first `i` marks, in order.
pub open spec fn squares_prefix(marks: Seq<LetterMatch>, i: int) -> Seq<char>
    decreases i,
{
    if i <= 0 {
        Seq::empty()
    } else {
        squares_prefix(marks, i - 1) + square(marks[i - 1])
    }
}

/// One rendered letter of a guess: emphasized when exact, plain when
/// close, struck through when wrong; each preceded by a space.
pub open spec fn letter_segment(c: Seq<char>, m: LetterMatch) -> Seq<char> {
    match m {
        LetterMatch::Exact => " ***"@ + c + "***"@,
        LetterMatch::Close => " "@ + c,
        LetterMatch::Wrong => " ~~"@ + c + "~~"@,
    }
}

/// The rendered letters of the first `i` positions of a marked guess.
pub open spec fn feedback_prefix(w: Seq<char>, marks: Seq<LetterMatch>, i: int) -> Seq<char>
    decreases i,
{
    if i <= 0 {
        Seq::empty()
    } else {
        feedback_prefix(w, marks, i - 1) + letter_segment(w.subrange(i - 1, i), marks[i - 1])
    }
}

/// One history line: squares, rendered letters, and the author.
pub open spec fn spec_guess_line(r: GuessRecordV) -> Seq<char> {
    "\n\n"@ + squares_prefix(r.marks, 5) + " "@ + feedback_prefix(r.word, r.marks, 5) + "    @"@
        + r.author
}

/// The history lines of the first `i` recorded guesses.
pub open spec fn spec_history_lines(h: Seq<GuessRecordV>, i: int) -> Seq<char>
    decreases i,
{
    if i <= 0 {
        Seq::empty()
    } else {
        spec_history_lines(h, i - 1) + spec_guess_line(h[i - 1])
    }
}

/// The alphabet in rendering order.
pub open spec fn upper_letters() -> Seq<char> {
    "ABCDEFGHIJKLMNOPQRSTUVWXYZ"@
}

/// One letter of the hint grid: emphasized when known present, plain when
/// nothing decisive is known, struck through when known absent.
pub open spec fn alpha_segment(m: LetterMatch, c: Seq<char>) -> Seq<char> {
    match m {
        LetterMatch::Exact => "***"@ + c + "*** "@,
        LetterMatch::Close => c + " "@,
        LetterMatch::Wrong => "~~"@ + c + "~~ "@,
    }
}

/// The hint grid over the first `i` letters, broken into rows of seven.
pub open spec fn spec_alphabet_prefix(h: Seq<LetterMatch>, i: int) -> Seq<char>
    decreases i,
{
    if i <= 0 {
        Seq::empty()
    } else {
        spec_alphabet_prefix(h, i - 1) + if (i - 1) % 7 == 0 {
            "\n\n"@
        } else {
            Seq::empty()
        } + alpha_segment(h[i - 1], upper_letters().subrange(i - 1, i))
    }
}

/// The whole cumulative hint grid.
pub open spec fn spec_alphabet_grid(h: Seq<LetterMatch>) -> Seq<char> {
    spec_alphabet_prefix(h, 26)
}

/// The try count of a finished game, as one digit.
pub open spec fn digit_of(n: int) -> Seq<char> {
    if n == 1 {
        "1"@
    } else if n == 2 {
        "2"@
    } else if n == 3 {
        "3"@
    } else if n == 4 {
        "4"@
    } else if n == 5 {
        "5"@
    } else {
        "6"@
    }
}

/// The header of a finished game: the revealed target and the tries used,
/// followed by the whole history.
pub open spec fn spec_finish_header(s: SessionV) -> Seq<char> {
    "## "@ + s.target + " "@ + digit_of(s.history.len() as int) + "/6"@ + spec_history_lines(
        s.history,
        s.history.len() as int,
    )
}

/// The reply a guess earns, given the session as the guess left it.
pub open spec fn spec_render_session_reply(
    s: SessionV,
    out: GuessOutcome,
    w: Seq<char>,
    author: Seq<char>,
) -> Seq<char> {
    match out {
        GuessOutcome::NoActiveGame => msg_not_started(),
        GuessOutcome::NotInDictionary => msg_not_in_dictionary(w),
        GuessOutcome::Ongoing => spec_history_lines(s.history, s.history.len() as int)
            + "\n\n___\n\n "@ + spec_alphabet_grid(s.hints),
        GuessOutcome::Won => spec_finish_header(s) + "\n\n 恭喜"@ + author + "，小鱼干奉上🎉"@,
        GuessOutcome::Lost => spec_finish_header(s) + "\n\n 游戏结束，再接再厉💪"@,
    }
}

/// Render a rejected command.
pub fn render_parse_error(e: &ParseActionError) -> (r: String)
    ensures
        r@ == spec_render_parse_error(e@),
{
    match e {
        ParseActionError::InvalidWord(w) => {
            let mut r = String::from_str("❌  `");
            r.append(w.as_str());
            r.append("` 为无效词汇，请确保单词为5个英文字母组成");
            assert(r@ =~= spec_render_parse_error(e@));
            r
        },
        ParseActionError::EmptyWord => String::from_str(
            "❌  猜测单词为空，请输入5个字母组成的英文单词",
        ),
        ParseActionError::UnsupportedAction(t) => {
            let mut r = String::from_str("❌  `");
            r.append(t.as_str());
            r.append("` 为不支持的动作，请输入`/start`或`/guess guess`");
            assert(r@ =~= spec_render_parse_error(e@));
            r
        },
    }
}

/// The greeting a genuine start posts.
pub fn welcome_message() -> (r: String)
    ensures
        r@ == msg_welcome(),
{
    String::from_str(
        "🚀  Wordle 游戏开始，请输入`/guess guess`猜词，谜底为5位单词，一共6次机会，首先猜对的用户获胜。\n\n每次反馈都包括猜测的历史记录和字母表，历史记录的方格会显示三种颜色，表示猜测和答案的接近程度：\n\n+ 🟩代表该字母正确，对应字母***斜体加粗***\n\n+ 🟨代表谜底里有该字母但位置不对\n\n+ ⬛代表谜底没有该字母，对应字母~~删除~~\n\n字母表中***斜体加粗***代表谜底里有该字母，~~删除~~代表谜底没有该字母",
    )
}

/// The notice for a `/start` while a game is already running.
pub fn already_started_message() -> (r: String)
    ensures
        r@ == msg_already_started(),
{
    String::from_str("❌  游戏已经开始，请输入`/guess guess`猜词")
}

/// Append the five coloured squares of a marked guess.
fn append_squares(dst: &mut String, marks: &Vec<LetterMatch>)
    requires
        marks@.len() == 5,
    ensures
        final(dst)@ == old(dst)@ + squares_prefix(marks@, 5),
{
    for i in 0..5
        invariant
            marks@.len() == 5,
            dst@ =~= old(dst)@ + squares_prefix(marks@, i as int),
    {
        match marks[i] {
            LetterMatch::Exact => dst.append("🟩"),
            LetterMatch::Close => dst.append("🟨"),
            LetterMatch::Wrong => dst.append("⬛"),
        }
        proof {
            assert(dst@ =~= old(dst)@ + squares_prefix(marks@, i + 1));
        }
    }
}

/// Append the rendered letters of a marked guess.
fn append_feedback(dst: &mut String, word: &str, marks: &Vec<LetterMatch>)
    requires
        word@.len() == 5,
        marks@.len() == 5,
    ensures
        final(dst)@ == old(dst)@ + feedback_prefix(word@, marks@, 5),
{
    for i in 0..5
        invariant
            word@.len() == 5,
            marks@.len() == 5,
            dst@ =~= old(dst)@ + feedback_prefix(word@, marks@, i as int),
    {
        let piece = word.substring_char(i, i + 1);
        match marks[i] {
            LetterMatch::Exact => {
                dst.append(" ***");
                dst.append(piece);
                dst.append("***");
            },
            LetterMatch::Close => {
                dst.append(" ");
                dst.append(piece);
            },
            LetterMatch::Wrong => {
                dst.append(" ~~");
                dst.append(piece);
                dst.append("~~");
            },
        }
        proof {
            assert(dst@ =~= old(dst)@ + feedback_prefix(word@, marks@, i + 1));
        }
    }
}

/// Append one history line.
fn append_guess_line(dst: &mut String, rec: &GuessRecord)
    requires
        rec@.word.len() == 5,
        rec@.marks.len() == 5,
    ensures
        final(dst)@ == old(dst)@ + spec_guess_line(rec@),
{
    dst.append("\n\n");
    append_squares(dst, &rec.marks);
    dst.append(" ");
    append_feedback(dst, rec.word.as_str(), &rec.marks);
    dst.append("    @");
    dst.append(rec.author.as_str());
    assert(dst@ =~= old(dst)@ + spec_guess_line(rec@));
}

/// Append every history line of the session.
fn append_history(dst: &mut String, history: &Vec<GuessRecord>, Ghost(target): Ghost<Seq<char>>)
    requires
        forall|i: int| 0 <= i < history@.len() ==> wf_record(#[trigger] history@[i]@, target),
    ensures
        final(dst)@ == old(dst)@ + spec_history_lines(
            history@.map_values(|r: GuessRecord| r@),
            history@.len() as int,
        ),
{
    let ghost h = history@.map_values(|r: GuessRecord| r@);
    let n = history.len();
    for k in 0..n
        invariant
            n == history@.len(),
            h == history@.map_values(|r: GuessRecord| r@),
            forall|i: int| 0 <= i < n ==> wf_record(#[trigger] history@[i]@, target),
            dst@ =~= old(dst)@ + spec_history_lines(h, k as int),
    {
        let rec = &history[k];
        assert(rec@ == h[k as int]);
        assert(wf_record(rec@, target));
        append_guess_line(dst, rec);
        proof {
            assert(dst@ =~= old(dst)@ + spec_history_lines(h, k + 1));
        }
    }
}

/// Append the cumulative alphabet hint grid.
fn append_alphabet(dst: &mut String, hints: &Alphabet)
    requires
        hints@.len() == 26,
    ensures
        final(dst)@ == old(dst)@ + spec_alphabet_grid(hints@),
{
    let letters = "ABCDEFGHIJKLMNOPQRSTUVWXYZ";
    proof {
        reveal_strlit("ABCDEFGHIJKLMNOPQRSTUVWXYZ");
    }
    for i in 0..26
        invariant
            hints@.len() == 26,
            letters@ == upper_letters(),
            letters@.len() == 26,
            dst@ =~= old(dst)@ + spec_alphabet_prefix(hints@, i as int),
    {
        if i % 7 == 0 {
            dst.append("\n\n");
        }
        let piece = letters.substring_char(i, i + 1);
        match hints.hint(i) {
            LetterMatch::Exact => {
                dst.append("***");
                dst.append(piece);
                dst.append("*** ");
            },
            LetterMatch::Close => {
                dst.append(piece);
                dst.append(" ");
            },
            LetterMatch::Wrong => {
                dst.append("~~");
                dst.append(piece);
                dst.append("~~ ");
            },
        }
        proof {
            assert(dst@ =~= old(dst)@ + spec_alphabet_prefix(hints@, i + 1));
        }
    }
}

/// Render the reply a guess earns, from the session as the guess left it,
/// the guessed word and the submitting author.
pub fn render_session_reply(s: &GameSession, out: GuessOutcome, word: &str, author: &str) -> (r:
    String)
    requires
        wf(s@),
        out is Won || out is Lost ==> 1 <= s@.history.len(),
    ensures
        r@ == spec_render_session_reply(s@, out, word@, author@),
{
    match out {
        GuessOutcome::NoActiveGame => String::from_str(
            "❌  游戏还未开始，请回复`/start`以开始游戏",
        ),
        GuessOutcome::NotInDictionary => {
            let mut r = String::from_str("❌  `");
            r.append(word);
            r.append("` 为无效词汇，请确保单词为5个英文字母组成且有效");
            assert(r@ =~= msg_not_in_dictionary(word@));
            r
        },
        GuessOutcome::Ongoing => {
            let mut r = String::new();
            proof {
                assert forall|i: int| 0 <= i < s.history@.len() implies wf_record(
                    #[trigger] s.history@[i]@,
                    s@.target,
                ) by {
                    assert(wf_record(s@.history[i], s@.target));
                }
            }
            append_history(&mut r, &s.history, Ghost(s@.target));
            r.append("\n\n___\n\n ");
            append_alphabet(&mut r, &s.hints);
            assert(r@ =~= spec_render_session_reply(s@, out, word@, author@));
            r
        },
        GuessOutcome::Won => {
            let mut r = finish_header(s);
            r.append("\n\n 恭喜");
            r.append(author);
            r.append("，小鱼干奉上🎉");
            assert(r@ =~= spec_render_session_reply(s@, out, word@, author@));
            r
        },
        GuessOutcome::Lost => {
            let mut r = finish_header(s);
            r.append("\n\n 游戏结束，再接再厉💪");
            assert(r@ =~= spec_render_session_reply(s@, out, word@, author@));
            r
        },
    }
}

/// Build the finished-game header with the revealed target, the tries used
/// and the full history.
fn finish_header(s: &GameSession) -> (r: String)
    requires
        wf(s@),
        1 <= s@.history.len(),
    ensures
        r@ == spec_finish_header(s@),
{
    let mut r = String::from_str("## ");
    r.append(s.target.as_str());
    r.append(" ");
    let n = s.history.len();
    if n == 1 {
        r.append("1");
    } else if n == 2 {
        r.append("2");
    } else if n == 3 {
        r.append("3");
    } else if n == 4 {
        r.append("4");
    } else if n == 5 {
        r.append("5");
    } else {
        r.append("6");
    }
    r.append("/6");
    proof {
        assert forall|i: int| 0 <= i < s.history@.len() implies wf_record(
            #[trigger] s.history@[i]@,
            s@.target,
        ) by {
            assert(wf_record(s@.history[i], s@.target));
        }
    }
    append_history(&mut r, &s.history, Ghost(s@.target));
    assert(r@ =~= spec_finish_header(s@));
    r
}

} // verus!
