//! A translation engine that drives an autoregressive language model.
//!
//! The engine decides; its caller performs the model's operations. A request
//! becomes a [`session::Step`], and each step names the one operation that the
//! caller carries out next and takes that operation's result back, until the
//! step is [`session::Step::Done`].
pub mod text;
pub mod error;
pub mod stream;
pub mod prompt;
pub mod router;
pub mod config;
pub mod batch;
pub mod protocol;
pub mod session;
pub mod engine;
pub mod laws;
pub mod api;
