//! Session orchestration and message relay for running a script inside
//! Roblox Studio.
//!
//! The crate holds the decisions of a run and nothing that touches the
//! machine it runs on. A host program performs each [`session::Action`] the
//! session asks for (writing a file, spawning a process, waiting on a
//! socket), reports what happened as an [`session::Event`], and the session
//! answers with the next action. Every transition is proved against a
//! mathematical model, and the laws of that model (nothing is left behind
//! once a run has ended, the output stream is exactly what was received)
//! are proved in [`laws`].

pub mod laws;
pub mod message_receiver;
pub mod place_runner;
pub mod session;
pub mod text;
