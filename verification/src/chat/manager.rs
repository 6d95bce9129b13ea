//! The session registry of the newer engine: one session per user, created
//! lazily on first contact.

use std::collections::HashMap;
use vstd::prelude::*;
use crate::chat::gpt::GptRecvResult;
use crate::chat::message::Message;
use crate::chat::model::ModelConfiguration;
use crate::chat::session::{
    spec_recv_content, Session, SessionError, SessionView, Status,
};
use crate::chat::UserId;

verus! {

/// All live sessions, one per user.
#[derive(Debug)]
pub struct ChatManager {
    sessions: HashMap<UserId, Session>,
}

impl View for ChatManager {
    type V = Map<UserId, SessionView>;

    closed spec fn view(&self) -> Map<UserId, SessionView> {
        self.sessions@.map_values(|s: Session| s@)
    }
}

impl ChatManager {
    /// A registry with no sessions.
    pub fn new() -> (r: Self)
        ensures
            r@ == Map::<UserId, SessionView>::empty(),
    {
        let r = Self { sessions: HashMap::new() };
        proof {
            assert(r@ =~= Map::<UserId, SessionView>::empty());
        }
        r
    }

    /// Admits a user turn into the user's session, creating the session with
    /// the given model configuration on first contact. Fails exactly when a
    /// turn is already awaiting its reply.
    pub fn new_user_message(
        &mut self,
        user_id: UserId,
        msg: String,
        model_config: ModelConfiguration,
    ) -> (r: Result<(), SessionError>)
        ensures
            final(self)@.dom() == old(self)@.dom().insert(user_id),
            forall|k: UserId| #[trigger] old(self)@.contains_key(k) && k != user_id ==> final(self)@[k] == old(self)@[k],
            ({
                let fresh = !old(self)@.contains_key(user_id);
                let s0 = final(self)@[user_id];
                if !fresh && old(self)@[user_id].status == Status::Replying {
                    r == Err::<(), SessionError>(SessionError::StatusInvalid) && s0 == old(self)@[user_id]
                } else {
                    &&& r == Ok::<(), SessionError>(())
                    &&& s0.status == Status::Replying
                    &&& s0.messages.len() == (if fresh {
                        2int
                    } else {
                        old(self)@[user_id].messages.len() + 1int
                    })
                    &&& s0.messages.last().role
                        == crate::chat::message::MessageRole::User
                    &&& s0.messages.last().content@ == msg@
                    &&& (!fresh ==> s0.messages.subrange(
                        0,
                        old(self)@[user_id].messages.len() as int,
                    ) == old(self)@[user_id].messages && s0.model_config == old(self)@[user_id].model_config)
                    &&& (fresh ==> s0.model_config == model_config && s0.messages[0].role
                        == crate::chat::message::MessageRole::System && s0.messages[0].content@
                        == crate::role::ASSISTANT_SYSTEM_INFO@)
                }
            }),
    {
        let mut session = match self.sessions.remove(&user_id) {
            Some(s) => s,
            None => Session::new(user_id, model_config),
        };
        let r = session.new_user_message(msg);
        self.sessions.insert(user_id, session);
        proof {
            assert(self@.dom() =~= old(self)@.dom().insert(user_id));
        }
        r
    }

    /// Resolves the user's pending turn with the remote reply; nothing
    /// happens for a user with no session.
    pub fn recv_message(&mut self, user_id: UserId, gpt_result: GptRecvResult) -> (r: Option<
        String,
    >)
        ensures
            final(self)@.dom() == old(self)@.dom(),
            forall|k: UserId| #[trigger] old(self)@.contains_key(k) && k != user_id ==> final(self)@[k] == old(self)@[k],
            match r {
                Some(content) => old(self)@.contains_key(user_id) && content@ == spec_recv_content(gpt_result) && final(self)@[user_id].status == Status::Replied && final(self)@[user_id].messages.len() == old(self)@[user_id].messages.len() + 1 && final(self)@[user_id].messages.subrange(0, old(self)@[user_id].messages.len() as int) == old(self)@[user_id].messages && final(self)@[user_id].messages.last().content@
                    == spec_recv_content(gpt_result),
                None => !old(self)@.contains_key(user_id) && final(self)@ == old(self)@,
            },
    {
        match self.sessions.remove(&user_id) {
            Some(mut session) => {
                let content = session.recv_message(gpt_result);
                self.sessions.insert(user_id, session);
                proof {
                    assert(self@.dom() =~= old(self)@.dom());
                }
                Some(content)
            },
            None => {
                proof {
                    assert(self@ =~= old(self)@);
                }
                None
            },
        }
    }

    /// Reseeds the user's conversation under its current role and leaves the
    /// session idle; nothing happens for a user with no session.
    pub fn clear(&mut self, user_id: UserId)
        ensures
            final(self)@.dom() == old(self)@.dom(),
            forall|k: UserId| #[trigger] old(self)@.contains_key(k) && k != user_id ==> final(self)@[k] == old(self)@[k],
            old(self)@.contains_key(user_id) ==> {
                let s0 = final(self)@[user_id];
                &&& s0.status == Status::Replied
                &&& s0.messages.len() == 1
                &&& s0.messages[0].role == crate::chat::message::MessageRole::System
                &&& s0.messages[0].content@ == crate::role::ASSISTANT_SYSTEM_INFO@
                &&& s0.role == old(self)@[user_id].role
                &&& s0.model_config == old(self)@[user_id].model_config
                &&& s0.user_id == old(self)@[user_id].user_id
            },
            !old(self)@.contains_key(user_id) ==> final(self)@ == old(self)@,
    {
        match self.sessions.remove(&user_id) {
            Some(mut session) => {
                session.clear_message();
                self.sessions.insert(user_id, session);
                proof {
                    assert(self@.dom() =~= old(self)@.dom());
                }
            },
            None => {
                proof {
                    assert(self@ =~= old(self)@);
                }
            },
        }
    }

    /// Rolls the user's pending turn back after a failed remote call and
    /// leaves the session idle again; nothing happens for a user with no
    /// session.
    pub fn rollback_message(&mut self, user_id: UserId)
        ensures
            final(self)@.dom() == old(self)@.dom(),
            forall|k: UserId| #[trigger] old(self)@.contains_key(k) && k != user_id ==> final(self)@[k] == old(self)@[k],
            old(self)@.contains_key(user_id) ==> {
                let s0 = final(self)@[user_id];
                &&& s0.status == Status::Replied
                &&& s0.messages == (if old(self)@[user_id].messages.len() == 0 {
                    old(self)@[user_id].messages
                } else {
                    old(self)@[user_id].messages.drop_last()
                })
                &&& s0.role == old(self)@[user_id].role
                &&& s0.model_config == old(self)@[user_id].model_config
                &&& s0.user_id == old(self)@[user_id].user_id
                &&& s0.timestamp == old(self)@[user_id].timestamp
            },
            !old(self)@.contains_key(user_id) ==> final(self)@ == old(self)@,
    {
        match self.sessions.remove(&user_id) {
            Some(mut session) => {
                session.rollback_message();
                self.sessions.insert(user_id, session);
                proof {
                    assert(self@.dom() =~= old(self)@.dom());
                }
            },
            None => {
                proof {
                    assert(self@ =~= old(self)@);
                }
            },
        }
    }

    /// Switches the user's session to another model configuration; nothing
    /// happens for a user with no session.
    pub fn set_mode(&mut self, user_id: UserId, mode_config: ModelConfiguration)
        ensures
            final(self)@ == (if old(self)@.contains_key(user_id) {
                old(self)@.insert(
                    user_id,
                    SessionView { model_config: mode_config, ..old(self)@[user_id] },
                )
            } else {
                old(self)@
            }),
    {
        match self.sessions.remove(&user_id) {
            Some(mut session) => {
                session.set_mode(mode_config);
                self.sessions.insert(user_id, session);
                proof {
                    assert(self@ =~= old(self)@.insert(
                        user_id,
                        SessionView { model_config: mode_config, ..old(self)@[user_id] },
                    ));
                }
            },
            None => {
                proof {
                    assert(self@ =~= old(self)@);
                }
            },
        }
    }

    /// The user's conversation so far, for building the next request.
    pub fn messages(&self, user_id: UserId) -> (r: Option<&Vec<Message>>)
        ensures
            match r {
                Some(m) => self@.contains_key(user_id) && m@ == self@[user_id].messages,
                None => !self@.contains_key(user_id),
            },
    {
        match self.sessions.get(&user_id) {
            Some(s) => Some(s.messages()),
            None => None,
        }
    }

    /// The model configuration of the user's session.
    pub fn model_config(&self, user_id: UserId) -> (r: Option<ModelConfiguration>)
        ensures
            match r {
                Some(m) => self@.contains_key(user_id) && m == self@[user_id].model_config,
                None => !self@.contains_key(user_id),
            },
    {
        match self.sessions.get(&user_id) {
            Some(s) => Some(s.model_config()),
            None => None,
        }
    }
}

} // verus!
