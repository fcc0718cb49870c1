//! A verified game-orchestration engine for a turn-based, letter-guessing
//! word game played over a reply-based forum thread.
//!
//! Human participants post commands as thread replies; an agent polls for new
//! replies, interprets them as game commands, advances one shared game
//! session, and renders a response.  This crate holds the verified core of
//! that agent: the command grammar ([`parser`]), the duplicate-letter-correct
//! word-matching engine ([`matching`]), the single-session state machine with
//! its cumulative alphabet hints ([`session`], [`hints`]), the response
//! renderer ([`render`]), and the poll-dispatch-respond step function that
//! drives the game forward exactly once per new reply ([`orchestrator`]).
//!
//! The word dictionary and the daily-answer selection come from an outside
//! word-list crate through the trusted wrappers in [`dict`]; the wire-level
//! thread client is an external collaborator and stays outside this crate.

pub mod dict;
pub mod forum;
pub mod hints;
pub mod matching;
pub mod orchestrator;
pub mod parser;
pub mod render;
pub mod session;
pub mod words;
