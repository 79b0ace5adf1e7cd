//! Reviews a text for discriminatory language through a chat-completion
//! service: builds the request, and reads the suggestion out of the answer.
//!
//! The library holds every decision of that exchange; sending the request and
//! receiving the answer are left to the caller.

pub mod cli;
pub mod json;
pub mod request;
pub mod response;
pub mod text;
