//! The poll-dispatch-respond loop, as a verified step function.
//!
//! The surrounding process fetches pages of new replies and performs the
//! network sends; everything it decides comes from here.  For each fetched
//! post the cursor is advanced to the post's floor first, unconditionally:
//! a post is never reprocessed even if replying to it fails.  The post's
//! text is then parsed, the resulting action applied to the single session,
//! and the reply rendered.  A winning guess additionally asks for an
//! appreciation of the winning post.
//!
//! The whole step is a function of the state, the post and the day number
//! that seeds the daily answer, so replaying the same fetched page from the
//! same starting state reproduces the same session and cursor.

use vstd::prelude::*;
use crate::dict::{in_dictionary, spec_daily_answer, daily_answer, is_valid_guess, random_day};
use crate::parser::{Action, ActionV, parse, spec_parse, lemma_parsed_guess_is_word};
use crate::render::{
    render_parse_error, render_session_reply, welcome_message, already_started_message,
    spec_render_parse_error, spec_render_session_reply, msg_welcome, msg_already_started,
};
use crate::session::{GameSession, GuessOutcome, SessionV, spec_start, spec_guess, wf};

verus! {

/// One fetched reply of the thread: its monotonic floor number, its post
/// id, its text, and who wrote it.
#[derive(Debug, Clone)]
pub struct Post {
    pub floor: u64,
    pub id: u64,
    pub content: String,
    pub author: String,
}

/// The mathematical shape of a [`Post`].
#[verifier::ext_equal]
pub struct PostV {
    pub floor: u64,
    pub id: u64,
    pub content: Seq<char>,
    pub author: Seq<char>,
}

impl View for Post {
    type V = PostV;

    open spec fn view(&self) -> PostV {
        PostV { floor: self.floor, id: self.id, content: self.content@, author: self.author@ }
    }
}

/// What one processed post asks the surrounding process to do: send a
/// reply, and perhaps appreciate the winning post.  Both are best-effort;
/// their failure changes no state here.
#[derive(Debug)]
pub struct StepOutput {
    pub reply: Option<String>,
    pub appreciate: Option<u64>,
}

/// The mathematical shape of a [`StepOutput`].
#[verifier::ext_equal]
pub struct StepOutputV {
    pub reply: Option<Seq<char>>,
    pub appreciate: Option<u64>,
}

impl View for StepOutput {
    type V = StepOutputV;

    open spec fn view(&self) -> StepOutputV {
        StepOutputV {
            reply: match self.reply {
                Some(ref s) => Some(s@),
                None => None,
            },
            appreciate: self.appreciate,
        }
    }
}

/// The orchestrator's whole state: the last processed floor and the single
/// session.
#[derive(Debug)]
pub struct OrchestratorState {
    pub cursor: u64,
    pub session: GameSession,
}

/// The mathematical shape of an [`OrchestratorState`].
#[verifier::ext_equal]
pub struct OrchestratorV {
    pub cursor: u64,
    pub session: SessionV,
}

impl View for OrchestratorState {
    type V = OrchestratorV;

    open spec fn view(&self) -> OrchestratorV {
        OrchestratorV { cursor: self.cursor, session: self.session@ }
    }
}

/// What one post does to the state, and what it asks the surrounding
/// process to send.  The cursor advances to the post's floor first,
/// whatever follows.  Chatter asks for nothing; a failed parse asks for the
/// error text; `/start` starts a game on the day's answer or reports one
/// already running; a guess is played against the session with the
/// dictionary's verdict on the word, and a win asks for an appreciation of
/// the post.
pub open spec fn spec_step(st: OrchestratorV, p: PostV, day: u64) -> (OrchestratorV, StepOutputV) {
    let cursor = p.floor;
    match spec_parse(p.content) {
        Err(e) => (
            OrchestratorV { cursor, session: st.session },
            StepOutputV { reply: Some(spec_render_parse_error(e)), appreciate: None },
        ),
        Ok(ActionV::Nop) => (
            OrchestratorV { cursor, session: st.session },
            StepOutputV { reply: None, appreciate: None },
        ),
        Ok(ActionV::Start) => {
            let r = spec_start(st.session, spec_daily_answer(day));
            let reply = if r.1 {
                msg_welcome()
            } else {
                msg_already_started()
            };
            (
                OrchestratorV { cursor, session: r.0 },
                StepOutputV { reply: Some(reply), appreciate: None },
            )
        },
        Ok(ActionV::Guess(w)) => {
            let r = spec_guess(st.session, w, in_dictionary(w), p.author);
            let appreciate = if r.1 == GuessOutcome::Won {
                Some(p.id)
            } else {
                None
            };
            (
                OrchestratorV { cursor, session: r.0 },
                StepOutputV {
                    reply: Some(spec_render_session_reply(r.0, r.1, w, p.author)),
                    appreciate,
                },
            )
        },
    }
}

/// The view of a fetched page.
pub open spec fn posts_view(posts: Seq<Post>) -> Seq<PostV> {
    posts.map_values(|p: Post| p@)
}

/// What the thread client guarantees of a fetched page: floors strictly
/// above the cursor, in strictly ascending order.
pub open spec fn page_in_order(posts: Seq<PostV>, cursor: u64) -> bool {
    &&& forall|i: int| 0 <= i < posts.len() ==> cursor < #[trigger] posts[i].floor
    &&& forall|i: int, j: int|
        0 <= i < j < posts.len() ==> #[trigger] posts[i].floor < #[trigger] posts[j].floor
}

/// The state after the first `i` posts of a page.
pub open spec fn spec_page_state(st: OrchestratorV, posts: Seq<PostV>, day: u64, i: int) -> OrchestratorV
    decreases i,
{
    if i <= 0 {
        st
    } else {
        spec_step(spec_page_state(st, posts, day, i - 1), posts[i - 1], day).0
    }
}

/// The outputs the first `i` posts of a page ask for, in order.
pub open spec fn spec_page_outputs(
    st: OrchestratorV,
    posts: Seq<PostV>,
    day: u64,
    i: int,
) -> Seq<StepOutputV>
    decreases i,
{
    if i <= 0 {
        Seq::empty()
    } else {
        spec_page_outputs(st, posts, day, i - 1).push(
            spec_step(spec_page_state(st, posts, day, i - 1), posts[i - 1], day).1,
        )
    }
}

impl OrchestratorState {
    /// A fresh orchestrator, with the cursor at the thread's current reply
    /// count so that only replies posted from now on are processed.
    pub fn new(cursor: u64) -> (r: OrchestratorState)
        ensures
            r@.cursor == cursor,
            r@.session.state is NotStarted,
            r@.session.history.len() == 0,
            wf(r@.session),
    {
        OrchestratorState { cursor, session: GameSession::new() }
    }

    /// Process one fetched post against the session, with `day` seeding the
    /// daily answer should it start a game.  The cursor advances to the
    /// post's floor before anything else and never moves back.
    pub fn process_post_at(&mut self, post: &Post, day: u64) -> (out: StepOutput)
        requires
            wf(old(self)@.session),
            old(self)@.cursor <= post@.floor,
        ensures
            final(self)@ == spec_step(old(self)@, post@, day).0,
            out@ == spec_step(old(self)@, post@, day).1,
            wf(final(self)@.session),
            old(self)@.cursor <= final(self)@.cursor,
    {
        self.cursor = post.floor;
        match parse(post.content.as_str()) {
            Err(e) => {
                let reply = render_parse_error(&e);
                let out = StepOutput { reply: Some(reply), appreciate: None };
                proof {
                    assert(self@ =~= spec_step(old(self)@, post@, day).0);
                    assert(out@ =~= spec_step(old(self)@, post@, day).1);
                }
                out
            },
            Ok(Action::Nop) => {
                let out = StepOutput { reply: None, appreciate: None };
                proof {
                    assert(self@ =~= spec_step(old(self)@, post@, day).0);
                    assert(out@ =~= spec_step(old(self)@, post@, day).1);
                }
                out
            },
            Ok(Action::Start) => {
                let target = daily_answer(day);
                let started = self.session.apply_start(target);
                let reply = if started {
                    welcome_message()
                } else {
                    already_started_message()
                };
                let out = StepOutput { reply: Some(reply), appreciate: None };
                proof {
                    assert(self@ =~= spec_step(old(self)@, post@, day).0);
                    assert(out@ =~= spec_step(old(self)@, post@, day).1);
                }
                out
            },
            Ok(Action::Guess(w)) => {
                proof {
                    lemma_parsed_guess_is_word(post@.content);
                }
                let in_dict = is_valid_guess(w.as_str());
                let word = w.clone();
                let author = post.author.clone();
                let outcome = self.session.apply_guess(w, in_dict, author);
                let reply = render_session_reply(
                    &self.session,
                    outcome,
                    word.as_str(),
                    post.author.as_str(),
                );
                let appreciate = if outcome == GuessOutcome::Won {
                    Some(post.id)
                } else {
                    None
                };
                let out = StepOutput { reply: Some(reply), appreciate };
                proof {
                    assert(self@ =~= spec_step(old(self)@, post@, day).0);
                    assert(out@ =~= spec_step(old(self)@, post@, day).1);
                }
                out
            },
        }
    }

    /// Process one fetched post, drawing a fresh day number for a possible
    /// start.  Whatever day comes out, the step behaves as
    /// [`spec_step`] of that day.
    pub fn process_post(&mut self, post: &Post) -> (out: StepOutput)
        requires
            wf(old(self)@.session),
            old(self)@.cursor <= post@.floor,
        ensures
            exists|day: u64|
                {
                    let r = #[trigger] spec_step(old(self)@, post@, day);
                    final(self)@ == r.0 && out@ == r.1
                },
            wf(final(self)@.session),
            old(self)@.cursor <= final(self)@.cursor,
    {
        let day = random_day();
        let out = self.process_post_at(post, day);
        proof {
            assert({
                let r = spec_step(old(self)@, post@, day);
                self@ == r.0 && out@ == r.1
            });
        }
        out
    }

    /// Process one fetched page in floor order.  The cursor never moves
    /// back, whether or not the surrounding process manages to send any of
    /// the returned replies.
    pub fn process_page(&mut self, posts: &Vec<Post>, day: u64) -> (outs: Vec<StepOutput>)
        requires
            wf(old(self)@.session),
            page_in_order(posts_view(posts@), old(self)@.cursor),
        ensures
            final(self)@ == spec_page_state(
                old(self)@,
                posts_view(posts@),
                day,
                posts@.len() as int,
            ),
            outs@.map_values(|o: StepOutput| o@) == spec_page_outputs(
                old(self)@,
                posts_view(posts@),
                day,
                posts@.len() as int,
            ),
            wf(final(self)@.session),
            old(self)@.cursor <= final(self)@.cursor,
    {
        let ghost st0 = self@;
        let ghost pv = posts_view(posts@);
        let mut outs: Vec<StepOutput> = Vec::new();
        let n = posts.len();
        for k in 0..n
            invariant
                n == posts@.len(),
                pv == posts_view(posts@),
                page_in_order(pv, st0.cursor),
                self@ == spec_page_state(st0, pv, day, k as int),
                wf(self@.session),
                outs@.len() == k,
                outs@.map_values(|o: StepOutput| o@) =~= spec_page_outputs(st0, pv, day, k as int),
                st0.cursor <= self@.cursor,
                k > 0 ==> self@.cursor == pv[k - 1].floor,
        {
            let post = &posts[k];
            assert(post@ == pv[k as int]);
            proof {
                if k > 0 {
                    assert(pv[k - 1].floor < pv[k as int].floor);
                }
            }
            let o = self.process_post_at(post, day);
            outs.push(o);
            proof {
                assert(outs@.map_values(|o: StepOutput| o@) =~= spec_page_outputs(
                    st0,
                    pv,
                    day,
                    k + 1,
                ));
            }
        }
        outs
    }
}

/// Over any well-ordered page, the cursor only ever moves forward, step
/// after step.
pub proof fn lemma_cursor_monotonic(st: OrchestratorV, posts: Seq<PostV>, day: u64, i: int)
    requires
        0 <= i <= posts.len(),
        page_in_order(posts, st.cursor),
    ensures
        st.cursor <= spec_page_state(st, posts, day, i).cursor,
    decreases i,
{
    if i > 0 {
        lemma_cursor_monotonic(st, posts, day, i - 1);
    }
}

/// Replaying one fetched page against two equal starting states — the same
/// cursor and the same fresh session — yields the same final state and the
/// same outputs: the step is a function of state, post and day alone, so a
/// replay after a transient failure changes nothing.
pub proof fn lemma_replay_deterministic(
    s1: OrchestratorV,
    s2: OrchestratorV,
    posts: Seq<PostV>,
    day: u64,
)
    requires
        s1 == s2,
    ensures
        spec_page_state(s1, posts, day, posts.len() as int) == spec_page_state(
            s2,
            posts,
            day,
            posts.len() as int,
        ),
        spec_page_outputs(s1, posts, day, posts.len() as int) == spec_page_outputs(
            s2,
            posts,
            day,
            posts.len() as int,
        ),
{
}

} // verus!
