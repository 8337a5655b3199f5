//! The chat-protocol message and event shapes the bot frontend speaks.

pub mod api;
pub mod event;
pub mod message;
