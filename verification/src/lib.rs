//! Conversation session and command dispatch engine for a chat bot.
//!
//! The library keeps one conversation context per identity (a private user,
//! or one member of one group), admits user turns under a one-in-flight rule
//! and a per-scope rate limit, parses user and admin commands, and maintains
//! the persisted deny lists. Transport, the remote completion call and file
//! handling live outside the library and talk to it through plain values.

pub mod chat;
pub mod command;
pub mod config;
pub mod cqbot;
pub mod gpt;
pub mod history;
pub mod msg;
pub mod private_manager;
pub mod qbot_cmd;
pub mod role;
pub mod text;
