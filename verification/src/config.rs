//! Configuration values the engine reads: which completion service to talk
//! to (with its token), and the default configuration text written on first
//! setup. Reading the configuration file is the caller's job.

use vstd::prelude::*;

verus! {

/// The completion service in use, with its API token.
#[derive(Debug)]
pub enum AuthToken {
    OpenAi(String),
    DeepSeek(String),
}

impl AuthToken {
    /// The API token itself.
    pub fn token(&self) -> (r: &String)
        ensures
            match *self {
                AuthToken::OpenAi(t) => r@ == t@,
                AuthToken::DeepSeek(t) => r@ == t@,
            },
    {
        match self {
            AuthToken::OpenAi(t) => t,
            AuthToken::DeepSeek(t) => t,
        }
    }
}

/// The configuration text written when a fresh setup is initialized.
pub fn default_config() -> (r: String)
    ensures
        r@
            == "---\ncq_bot:\n  websocket: ws://localhost:8080/ws\n  bot_qq: 123\n  root_qq: 456\nproxy: \nauth_token:\n  DeepSeek: sksksksk\n"@,
{
    "---\ncq_bot:\n  websocket: ws://localhost:8080/ws\n  bot_qq: 123\n  root_qq: 456\nproxy: \nauth_token:\n  DeepSeek: sksksksk\n".to_owned()
}

} // verus!
