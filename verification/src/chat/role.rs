//! The personas of the newer session engine.

use vstd::prelude::*;
use crate::chat::message::{Message, MessageRole};
use crate::role::ASSISTANT_SYSTEM_INFO;

verus! {

/// The persona of a session.
#[derive(Clone, Copy, Debug, PartialEq, Eq, Structural)]
pub enum Role {
    Assistant,
}

impl Role {
    /// The seed messages that open a fresh session under this role.
    pub fn initial_message(&self) -> (r: Vec<Message>)
        ensures
            r@.len() == 1,
            r@[0].role == MessageRole::System,
            r@[0].content@ == ASSISTANT_SYSTEM_INFO@,
    {
        match self {
            Role::Assistant => vec![
                Message::new(MessageRole::System, ASSISTANT_SYSTEM_INFO.to_owned()),
            ],
        }
    }
}

} // verus!
