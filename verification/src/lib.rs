//! Core of a bridge between one chat-room account and a small web front end:
//! the encrypted credential vault, the connection life cycle, the message
//! history with its fan-out bus, and the device-verification tracker.
//!
//! Everything that waits on the network lives outside this library. The
//! library holds the state and the decisions: each long-running operation is
//! a step function from the current phase and the last observation to the
//! next phase and the next thing to do.

pub mod bot;
pub mod bus;
pub mod cipher;
pub mod config;
pub mod credentials;
pub mod digest;
pub mod error;
pub mod handshake;
pub mod history;
pub mod identifiers;
pub mod seqs;
pub mod text;
pub mod verification;
pub mod web;
