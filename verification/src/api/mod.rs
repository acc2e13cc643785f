//! The chat completion endpoint: what is sent to it and what comes back.

pub mod client;
pub mod types;
