//! Decision logic of a call bot that plays queued videos through one shared
//! browser session, together with the text rules of its chat replies.
//!
//! Nothing here performs I/O. Each procedure that drives the outside world is
//! a step function: it is handed what happened last and answers with the next
//! thing to do.

pub mod audio;
pub mod chatbot;
pub mod commands;
pub mod contracts;
pub mod infra;
pub mod json;
pub mod text;
pub mod text_generation;
pub mod translation;
pub mod tts;
pub mod video;
