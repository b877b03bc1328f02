//! Orchestration core of a chat bot that turns voice and audio messages into
//! text replies: a speech-to-text job is created, polled to a terminal state,
//! and its transcript is optionally summarised before the reply is sent.
//!
//! Every network exchange is performed by the caller; this library decides
//! what to do next from the results handed back to it.
pub mod pipeline;
pub mod poll;
pub mod text;
pub mod transcript;
