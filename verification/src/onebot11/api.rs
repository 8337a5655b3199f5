//! Request and response shapes of the chat protocol's calls.

pub mod message;
pub mod response;
