//! Routing of free-text chat input: each line is labelled as conversation or
//! as a music request, refined when it asks for music, and answered by a chat
//! completion or by a catalog search.
//!
//! The library holds every decision of that pipeline. Network, terminal and
//! environment access stay with the caller, which performs the action that
//! the library asks for and hands back what came of it.

pub mod api;
pub mod config;
pub mod dispatch;
pub mod error;
pub mod input;
pub mod intent;
pub mod music;
pub mod prompt_file;
pub mod text;
