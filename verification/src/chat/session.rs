//! One user's session: persona, model configuration, conversation and the
//! status machine around the remote completion call.

use vstd::prelude::*;
use vstd::string::StringExecFns;
use crate::chat::gpt::GptRecvResult;
use crate::chat::message::{now_timestamp_millis, Message, MessageRole};
use crate::chat::model::ModelConfiguration;
use crate::chat::role::Role;
use crate::chat::UserId;
use crate::role::ASSISTANT_SYSTEM_INFO;

verus! {

/// Where a session stands: awaiting the remote reply, or idle.
#[derive(Clone, Copy, Debug, PartialEq, Eq, Structural)]
pub enum Status {
    Replying,
    Replied,
}

/// Why a session refused a user message.
#[derive(Clone, Copy, Debug, PartialEq, Eq, Structural)]
pub enum SessionError {
    StatusInvalid,
}

impl SessionError {
    /// The text the refusal is surfaced as.
    pub fn message(&self) -> (r: String)
        ensures
            r@ == "status invalid."@,
    {
        "status invalid.".to_owned()
    }
}

/// One user's session.
#[derive(Debug)]
pub struct Session {
    role: Role,
    user_id: UserId,
    model_config: ModelConfiguration,
    messages: Vec<Message>,
    status: Status,
    timestamp: i64,
}

/// Mathematical value of a [`Session`]. The messages stay as built: their
/// time stamps came from the clock and are not constrained.
#[verifier::ext_equal]
pub struct SessionView {
    pub role: Role,
    pub user_id: UserId,
    pub model_config: ModelConfiguration,
    pub messages: Seq<Message>,
    pub status: Status,
    pub timestamp: i64,
}

impl View for Session {
    type V = SessionView;

    closed spec fn view(&self) -> SessionView {
        SessionView {
            role: self.role,
            user_id: self.user_id,
            model_config: self.model_config,
            messages: self.messages@,
            status: self.status,
            timestamp: self.timestamp,
        }
    }
}

/// A session as `Session::new` hands it out: idle, seeded under the default
/// role.
pub open spec fn spec_is_fresh_session(s: SessionView, user_id: UserId, mc: ModelConfiguration) -> bool {
    &&& s.role == Role::Assistant
    &&& s.user_id == user_id
    &&& s.model_config == mc
    &&& s.status == Status::Replied
    &&& s.messages.len() == 1
    &&& s.messages[0].role == MessageRole::System
    &&& s.messages[0].content@ == ASSISTANT_SYSTEM_INFO@
}

/// The reply text a completion result resolves to: the first choice's
/// content, or a fixed notice when the service returned no choices.
pub open spec fn spec_recv_content(gpt_result: GptRecvResult) -> Seq<char> {
    if gpt_result.choices.len() == 0 {
        "gpt return no choices"@
    } else {
        gpt_result.choices[0].message.content@
    }
}

impl Session {
    /// A fresh idle session for `user_id`.
    pub fn new(user_id: UserId, model_config: ModelConfiguration) -> (r: Self)
        ensures
            spec_is_fresh_session(r@, user_id, model_config),
    {
        let default_role = Role::Assistant;
        Self {
            role: default_role,
            user_id,
            model_config,
            messages: default_role.initial_message(),
            status: Status::Replied,
            timestamp: now_timestamp_millis(),
        }
    }

    /// Admits a user turn: only an idle session takes one; the message is
    /// appended and the session awaits the remote reply.
    pub fn new_user_message(&mut self, content: String) -> (r: Result<(), SessionError>)
        ensures
            old(self)@.status == Status::Replying ==> r == Err::<(), SessionError>(
                SessionError::StatusInvalid,
            ) && final(self)@ == old(self)@,
            old(self)@.status == Status::Replied ==> {
                &&& r == Ok::<(), SessionError>(())
                &&& final(self)@.status == Status::Replying
                &&& final(self)@.messages.len() == old(self)@.messages.len() + 1
                &&& final(self)@.messages.subrange(0, old(self)@.messages.len() as int) == old(
                    self,
                )@.messages
                &&& final(self)@.messages.last().role == MessageRole::User
                &&& final(self)@.messages.last().content@ == content@
                &&& final(self)@.role == old(self)@.role
                &&& final(self)@.user_id == old(self)@.user_id
                &&& final(self)@.model_config == old(self)@.model_config
                &&& final(self)@.timestamp == old(self)@.timestamp
            },
    {
        match self.status {
            Status::Replying => Err(SessionError::StatusInvalid),
            Status::Replied => {
                self.messages.push(Message::new(MessageRole::User, content));
                self.status = Status::Replying;
                proof {
                    assert(self@.messages.subrange(0, old(self)@.messages.len() as int) =~= old(
                        self,
                    )@.messages);
                }
                Ok(())
            },
        }
    }

    /// Resolves the pending turn with the remote reply: its first choice (or
    /// a fixed notice) is appended as the assistant's message and returned,
    /// and the session is idle again.
    pub fn recv_message(&mut self, gpt_result: GptRecvResult) -> (r: String)
        ensures
            r@ == spec_recv_content(gpt_result),
            final(self)@.status == Status::Replied,
            final(self)@.messages.len() == old(self)@.messages.len() + 1,
            final(self)@.messages.subrange(0, old(self)@.messages.len() as int) == old(
                self,
            )@.messages,
            final(self)@.messages.last().role == MessageRole::Assistant,
            final(self)@.messages.last().content@ == spec_recv_content(gpt_result),
            final(self)@.role == old(self)@.role,
            final(self)@.user_id == old(self)@.user_id,
            final(self)@.model_config == old(self)@.model_config,
            final(self)@.timestamp == old(self)@.timestamp,
    {
        let GptRecvResult { id: _, object: _, created: _, model: _, choices, usage: _ } =
            gpt_result;
        let mut choices = choices;
        let content: String = if choices.len() == 0 {
            "gpt return no choices".to_owned()
        } else {
            let c = choices.remove(0);
            c.message.content
        };
        self.messages.push(Message::new(MessageRole::Assistant, content.clone()));
        self.status = Status::Replied;
        proof {
            assert(self@.messages.subrange(0, old(self)@.messages.len() as int) =~= old(
                self,
            )@.messages);
        }
        content
    }

    /// Drops the conversation and reseeds it under the current role, leaving
    /// the session idle: after a clear the history is exactly the role's
    /// seed again.
    pub fn clear_message(&mut self)
        ensures
            final(self)@.status == Status::Replied,
            final(self)@.messages.len() == 1,
            final(self)@.messages[0].role == MessageRole::System,
            final(self)@.messages[0].content@ == ASSISTANT_SYSTEM_INFO@,
            final(self)@.role == old(self)@.role,
            final(self)@.user_id == old(self)@.user_id,
            final(self)@.model_config == old(self)@.model_config,
            final(self)@.timestamp == old(self)@.timestamp,
    {
        self.messages = self.role.initial_message();
        self.status = Status::Replied;
    }

    /// Rolls the pending user turn back after a failed remote call: the most
    /// recently appended message is dropped and the session is idle again,
    /// so a failed call never leaves it awaiting a reply.
    pub fn rollback_message(&mut self)
        ensures
            final(self)@.status == Status::Replied,
            final(self)@.messages == (if old(self)@.messages.len() == 0 {
                old(self)@.messages
            } else {
                old(self)@.messages.drop_last()
            }),
            final(self)@.role == old(self)@.role,
            final(self)@.user_id == old(self)@.user_id,
            final(self)@.model_config == old(self)@.model_config,
            final(self)@.timestamp == old(self)@.timestamp,
    {
        self.messages.pop();
        self.status = Status::Replied;
    }

    /// Switches the model configuration.
    pub fn set_mode(&mut self, model_config: ModelConfiguration)
        ensures
            final(self)@ == (SessionView { model_config, ..old(self)@ }),
    {
        self.model_config = model_config;
    }

    /// The conversation so far, for building the next request.
    pub fn messages(&self) -> (r: &Vec<Message>)
        ensures
            r@ == self@.messages,
    {
        &self.messages
    }

    /// The model configuration in use.
    pub fn model_config(&self) -> (r: ModelConfiguration)
        ensures
            r == self@.model_config,
    {
        self.model_config
    }

    /// Where the session stands.
    pub fn status(&self) -> (r: Status)
        ensures
            r == self@.status,
    {
        self.status
    }
}

} // verus!
