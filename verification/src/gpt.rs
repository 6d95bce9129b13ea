//! Role-tagged conversation messages and the shape of a completion reply.

use vstd::prelude::*;

verus! {

/// Role tag of one message in a conversation history.
#[derive(Clone, Copy, Debug, PartialEq, Eq, Structural)]
pub enum GPTRole {
    System,
    User,
    Assistant,
}

/// One role-tagged message of a conversation history.
#[derive(Debug)]
pub struct GPTMessages {
    role: GPTRole,
    content: String,
}

/// Mathematical value of a [`GPTMessages`]: the role tag and the characters.
#[verifier::ext_equal]
pub struct GPTMessageView {
    pub role: GPTRole,
    pub content: Seq<char>,
}

impl View for GPTMessages {
    type V = GPTMessageView;

    closed spec fn view(&self) -> GPTMessageView {
        GPTMessageView { role: self.role, content: self.content@ }
    }
}

/// A system message with the given characters.
pub open spec fn sys_msg(content: Seq<char>) -> GPTMessageView {
    GPTMessageView { role: GPTRole::System, content }
}

/// A user message with the given characters.
pub open spec fn user_msg(content: Seq<char>) -> GPTMessageView {
    GPTMessageView { role: GPTRole::User, content }
}

/// An assistant message with the given characters.
pub open spec fn assist_msg(content: Seq<char>) -> GPTMessageView {
    GPTMessageView { role: GPTRole::Assistant, content }
}

/// The values of a whole history, message by message.
pub open spec fn msgs_view(msgs: Seq<GPTMessages>) -> Seq<GPTMessageView> {
    msgs.map_values(|m: GPTMessages| m@)
}

impl Clone for GPTMessages {
    fn clone(&self) -> (r: Self)
        ensures
            r@ == self@,
    {
        GPTMessages { role: self.role, content: self.content.clone() }
    }
}

impl GPTMessages {
    /// Hands the message text out, consuming the message.
    pub fn into_contnet(self) -> (r: String)
        ensures
            r@ == self@.content,
    {
        self.content
    }

    /// The role tag of this message.
    pub fn role(&self) -> (r: GPTRole)
        ensures
            r == self@.role,
    {
        self.role
    }

    /// The text of this message.
    pub fn content(&self) -> (r: &String)
        ensures
            r@ == self@.content,
    {
        &self.content
    }

    pub fn new_system_message(content: String) -> (r: Self)
        ensures
            r@ == sys_msg(content@),
    {
        Self { role: GPTRole::System, content }
    }

    pub fn new_user_message(content: String) -> (r: Self)
        ensures
            r@ == user_msg(content@),
    {
        Self { role: GPTRole::User, content }
    }

    pub fn new_assist_message(content: String) -> (r: Self)
        ensures
            r@ == assist_msg(content@),
    {
        Self { role: GPTRole::Assistant, content }
    }
}

/// Token accounting attached to a completion reply.
#[derive(Debug)]
pub struct GPTUsage {
    pub prompt_tokens: i64,
    pub completion_tokens: i64,
    pub total_tokens: i64,
}

/// One choice of a completion reply.
#[derive(Debug)]
pub struct GPTRecvChoice {
    pub message: GPTMessages,
}

/// A completion reply: an ordered list of choices plus metadata.
#[derive(Debug)]
pub struct GPTRecvMessage {
    pub id: String,
    pub object: String,
    pub created: u64,
    pub model: String,
    pub choices: Vec<GPTRecvChoice>,
    pub usage: GPTUsage,
}

impl GPTRecvMessage {
    /// The reply to keep: the first choice's message, or nothing when the
    /// remote side returned no choices.
    pub fn get_return_msg(&self) -> (r: Option<GPTMessages>)
        ensures
            match r {
                Some(m) => self.choices@.len() > 0 && m@ == self.choices@[0].message@,
                None => self.choices@.len() == 0,
            },
    {
        if self.choices.is_empty() {
            None
        } else {
            Some(self.choices[0].message.clone())
        }
    }
}

} // verus!
