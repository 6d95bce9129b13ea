//! The conversation engine: per-identity contexts, the per-scope manager
//! that applies deny-list and rate-limit policy, and the top-level router
//! that dispatches admin commands and resolves scopes.

use std::collections::{HashMap, HashSet};
use vstd::prelude::*;
use vstd::std_specs::iter::IteratorSpec;
use crate::command::{
    parse_instructions, spec_parse_instructions, Opcode, COMMAND_HELP_INFO,
};
use crate::gpt::{msgs_view, user_msg, GPTMessages};
use crate::history::{BotHistory, BotHistoryView};
use crate::role::{spec_description, spec_role_seed, BotRole};
use crate::text::{spec_u64_chars, u64_to_string};
use vstd::string::StrSliceExecFns;
use vstd::string::StringExecFns;

verus! {

broadcast use vstd::std_specs::hash::axiom_spec_keys_iter;

/// Seconds of inactivity after which an identity's history is reseeded on its
/// next admitted turn.
pub const LONG_IDLE_RESET_SECS: u64 = 60 * 60 * 2;

/// One identity's conversation state: persona, replayed history, the
/// one-in-flight flag and the rate-limiter clock.
#[derive(Debug)]
pub struct ChatContext {
    role: BotRole,
    user_id: u64,
    wait_gpt_reply: bool,
    histories: Vec<GPTMessages>,
    last_ts: u64,
}

/// Mathematical value of a [`ChatContext`].
#[verifier::ext_equal]
pub struct ChatContextView {
    pub role: BotRole,
    pub user_id: u64,
    pub wait_gpt_reply: bool,
    pub histories: Seq<crate::gpt::GPTMessageView>,
    pub last_ts: u64,
}

impl View for ChatContext {
    type V = ChatContextView;

    closed spec fn view(&self) -> ChatContextView {
        ChatContextView {
            role: self.role,
            user_id: self.user_id,
            wait_gpt_reply: self.wait_gpt_reply,
            histories: msgs_view(self.histories@),
            last_ts: self.last_ts,
        }
    }
}

/// A context as first created for an identity: default role, seeded history,
/// nothing in flight, no activity yet.
pub open spec fn spec_fresh_context(user_id: u64) -> ChatContextView {
    ChatContextView {
        role: BotRole::Assistant,
        user_id,
        wait_gpt_reply: false,
        histories: spec_role_seed(BotRole::Assistant),
        last_ts: 0,
    }
}

/// A context after a role switch: the history is exactly the role's seed.
pub open spec fn spec_set_role(c: ChatContextView, role: BotRole) -> ChatContextView {
    ChatContextView { role, histories: spec_role_seed(role), ..c }
}

/// A context reseeded under the default role.
pub open spec fn spec_reset(c: ChatContextView) -> ChatContextView {
    spec_set_role(c, BotRole::Assistant)
}

/// A context reseeded under its current role.
pub open spec fn spec_clean(c: ChatContextView) -> ChatContextView {
    spec_set_role(c, c.role)
}

/// The admission rule of the rate limiter.
pub open spec fn spec_rate_admit(c: ChatContextView, interval: u64, ts: u64) -> bool {
    c.last_ts + interval <= ts
}

/// The long-idle rule: prior activity, and two hours or more have passed.
pub open spec fn spec_long_idle(c: ChatContextView, ts: u64) -> bool {
    c.last_ts != 0 && c.last_ts + LONG_IDLE_RESET_SECS <= ts
}

/// A context right after the rate limiter admits a turn at `ts`: reseeded
/// first when it sat idle too long, and stamped with the new activity time.
pub open spec fn spec_admit_stamp(c: ChatContextView, ts: u64) -> ChatContextView {
    let c1 = if spec_long_idle(c, ts) {
        spec_reset(c)
    } else {
        c
    };
    ChatContextView { last_ts: ts, ..c1 }
}

/// The wait the rate limiter reports on denial, saturated at the top of the
/// `u64` range (where the value itself could not be computed).
pub open spec fn spec_wait_secs(c: ChatContextView, interval: u64, ts: u64) -> u64 {
    if c.last_ts + interval - ts <= u64::MAX {
        (c.last_ts + interval - ts) as u64
    } else {
        u64::MAX
    }
}

impl ChatContext {
    /// A fresh context for `user_id`, seeded under the default role.
    pub fn new_chat_context(user_id: u64) -> (r: Self)
        ensures
            r@ == spec_fresh_context(user_id),
    {
        let mut new_context = ChatContext {
            role: BotRole::Assistant,
            user_id,
            wait_gpt_reply: false,
            histories: Vec::new(),
            last_ts: 0,
        };
        new_context.set_default_role();
        proof {
            assert(new_context@ =~= spec_fresh_context(user_id));
        }
        new_context
    }

    /// Reseeds the history under the default role.
    pub fn reset(&mut self)
        ensures
            final(self)@ == spec_reset(old(self)@),
    {
        self.set_default_role()
    }

    /// Reseeds the history under the current role.
    pub fn clean(&mut self)
        ensures
            final(self)@ == spec_clean(old(self)@),
    {
        let role = self.role;
        self.set_role(&role);
    }

    /// Switches to the default role.
    pub fn set_default_role(&mut self)
        ensures
            final(self)@ == spec_set_role(old(self)@, BotRole::Assistant),
    {
        self.set_role(&BotRole::Assistant)
    }

    /// Switches the persona: the history becomes exactly the role's seed
    /// messages.
    pub fn set_role(&mut self, role: &BotRole)
        ensures
            final(self)@ == spec_set_role(old(self)@, *role),
    {
        self.role = *role;
        self.histories = role.system_infomation();
        proof {
            assert(self@ =~= spec_set_role(old(self)@, *role));
        }
    }

    /// The rate limiter. Admits when a full cooldown interval has passed
    /// since the last admitted turn; on admission stamps the clock, after
    /// reseeding the history when the identity sat idle for two hours or
    /// more. On denial reports how long the caller still has to wait, and
    /// changes nothing.
    pub fn query_too_often(&mut self, interval: u64, ts: u64) -> (r: (bool, u64))
        ensures
            r.0 == !spec_rate_admit(old(self)@, interval, ts),
            r.0 ==> final(self)@ == old(self)@ && r.1 == spec_wait_secs(old(self)@, interval, ts)
                && r.1 >= 1,
            !r.0 ==> final(self)@ == spec_admit_stamp(old(self)@, ts) && r.1 == 0,
    {
        if ts >= self.last_ts && ts - self.last_ts >= interval {
            if self.last_ts != 0 && ts - self.last_ts >= LONG_IDLE_RESET_SECS {
                self.reset();
            }
            self.last_ts = ts;
            proof {
                assert(self@ =~= spec_admit_stamp(old(self)@, ts));
            }
            (false, 0)
        } else {
            let wait = if ts >= self.last_ts {
                interval - (ts - self.last_ts)
            } else {
                match (self.last_ts - ts).checked_add(interval) {
                    Some(w) => w,
                    None => u64::MAX,
                }
            };
            (true, wait)
        }
    }

    /// The current history, for the caller to replay to the remote service.
    pub fn histories(&self) -> (r: &Vec<GPTMessages>)
        ensures
            msgs_view(r@) == self@.histories,
    {
        &self.histories
    }

    /// The current persona.
    pub fn role(&self) -> (r: BotRole)
        ensures
            r == self@.role,
    {
        self.role
    }

    /// Whether a turn is in flight for this identity.
    pub fn wait_gpt_reply(&self) -> (r: bool)
        ensures
            r == self@.wait_gpt_reply,
    {
        self.wait_gpt_reply
    }

    /// The rate-limiter clock: the timestamp of the last admitted turn, with
    /// zero meaning never.
    pub fn last_ts(&self) -> (r: u64)
        ensures
            r == self@.last_ts,
    {
        self.last_ts
    }
}

/// How an inbound message was resolved locally, when it did not turn into a
/// remote completion call. `CommandSuccess` is no failure: it carries the
/// reply of a command that ran, and must not trigger a remote call.
#[derive(Debug)]
pub enum PrivateManagerError {
    OnceMessageATime,
    QueryTooOften(u64),
    InvalidCommand,
    CommandSuccess(String),
    PermissionDeny,
}

/// The reply text each resolution is surfaced as.
pub open spec fn spec_error_message(e: PrivateManagerError) -> Seq<char> {
    match e {
        PrivateManagerError::OnceMessageATime => "Error: one message a time please."@,
        PrivateManagerError::QueryTooOften(w) => "Error: query too frequently. Wait "@
            + spec_u64_chars(w as nat) + " second please"@,
        PrivateManagerError::InvalidCommand => "Error: invalid command"@,
        PrivateManagerError::CommandSuccess(m) => "CommandSuccess: "@ + m@,
        PrivateManagerError::PermissionDeny => "Permission deny"@,
    }
}

impl PrivateManagerError {
    /// Renders the resolution as the reply text sent back to the user.
    pub fn message(&self) -> (r: String)
        ensures
            r@ == spec_error_message(*self),
    {
        match self {
            PrivateManagerError::OnceMessageATime => "Error: one message a time please.".to_owned(),
            PrivateManagerError::QueryTooOften(w) => {
                let mut s = "Error: query too frequently. Wait ".to_owned();
                let t = u64_to_string(*w);
                s.append(t.as_str());
                s.append(" second please");
                s
            },
            PrivateManagerError::InvalidCommand => "Error: invalid command".to_owned(),
            PrivateManagerError::CommandSuccess(m) => {
                let mut s = "CommandSuccess: ".to_owned();
                s.append(m.as_str());
                s
            },
            PrivateManagerError::PermissionDeny => "Permission deny".to_owned(),
        }
    }
}

/// One scope's manager: the contexts of every identity that spoke in the
/// scope, the scope's cooldown interval, and its deny list.
#[derive(Debug)]
pub struct PrivateManager {
    contexts: HashMap<u64, ChatContext>,
    interval: u64,
    deny_list: HashSet<u64>,
}

/// Mathematical value of a [`PrivateManager`].
#[verifier::ext_equal]
pub struct PrivateManagerView {
    pub contexts: Map<u64, ChatContextView>,
    pub interval: u64,
    pub deny_list: Set<u64>,
}

impl View for PrivateManager {
    type V = PrivateManagerView;

    closed spec fn view(&self) -> PrivateManagerView {
        PrivateManagerView {
            contexts: self.contexts@.map_values(|c: ChatContext| c@),
            interval: self.interval,
            deny_list: self.deny_list@,
        }
    }
}

/// The context the scope holds for an identity, or a fresh one when the
/// identity has none yet.
pub open spec fn spec_ctx_or_fresh(m: PrivateManagerView, user_id: u64) -> ChatContextView {
    if m.contexts.contains_key(user_id) {
        m.contexts[user_id]
    } else {
        spec_fresh_context(user_id)
    }
}

/// Does the text open with the user command prefix?
pub open spec fn spec_is_cmd(msg: Seq<char>) -> bool {
    msg.len() > 0 && msg[0] == '#'
}

/// A context after one user command ran against it. Commands that only
/// answer (`help`, or an unrecognized verb) leave it unchanged.
pub open spec fn spec_apply_user_cmd(c: ChatContextView, op: Opcode) -> ChatContextView {
    match op {
        Opcode::Invalid => c,
        Opcode::Role(r) => spec_set_role(c, r),
        Opcode::Clean => spec_clean(c),
        Opcode::Reset => spec_reset(c),
        Opcode::Help => c,
    }
}

/// The identity's context after one inbound message was handled: command
/// dispatch, or admission of a user turn under the in-flight flag and the
/// rate limiter.
pub open spec fn spec_handle_ctx(c: ChatContextView, interval: u64, ts: u64, msg: Seq<char>) -> ChatContextView {
    if spec_is_cmd(msg) {
        spec_apply_user_cmd(c, spec_parse_instructions(msg.skip(1)))
    } else if c.wait_gpt_reply {
        c
    } else if spec_rate_admit(c, interval, ts) {
        let c1 = spec_admit_stamp(c, ts);
        ChatContextView {
            histories: c1.histories.push(user_msg(msg)),
            wait_gpt_reply: true,
            ..c1
        }
    } else {
        c
    }
}

/// A whole scope after one inbound message was handled. A denied identity's
/// message changes nothing; any other sender's context is created on first
/// contact and stepped by [`spec_handle_ctx`].
pub open spec fn spec_pre_handle(m: PrivateManagerView, user_id: u64, ts: u64, msg: Seq<char>) -> PrivateManagerView {
    if m.deny_list.contains(user_id) {
        m
    } else {
        let c = spec_ctx_or_fresh(m, user_id);
        PrivateManagerView {
            contexts: m.contexts.insert(user_id, spec_handle_ctx(c, m.interval, ts, msg)),
            ..m
        }
    }
}

/// What `pre_handle_private_message` returns, case by case: `Ok(false)` for
/// a denied sender, an exact reply for every command, `Ok(true)` exactly when
/// a user turn was admitted, and the precise rejection otherwise.
pub open spec fn spec_pre_handle_result(
    m: PrivateManagerView,
    user_id: u64,
    ts: u64,
    msg: Seq<char>,
    r: Result<bool, PrivateManagerError>,
) -> bool {
    let c = spec_ctx_or_fresh(m, user_id);
    if m.deny_list.contains(user_id) {
        r == Ok::<bool, PrivateManagerError>(false)
    } else if spec_is_cmd(msg) {
        match spec_parse_instructions(msg.skip(1)) {
            Opcode::Invalid => r matches Err(PrivateManagerError::InvalidCommand),
            Opcode::Role(ro) => r matches Err(PrivateManagerError::CommandSuccess(s))
                && s@ == "> set role succ "@ + spec_description(ro),
            Opcode::Clean => r matches Err(PrivateManagerError::CommandSuccess(s))
                && s@ == "> clean success"@,
            Opcode::Reset => r matches Err(PrivateManagerError::CommandSuccess(s))
                && s@ == "> reset success"@,
            Opcode::Help => r matches Err(PrivateManagerError::CommandSuccess(s))
                && s@ == "> help:\n"@ + COMMAND_HELP_INFO@,
        }
    } else if c.wait_gpt_reply {
        r matches Err(PrivateManagerError::OnceMessageATime)
    } else if spec_rate_admit(c, m.interval, ts) {
        r == Ok::<bool, PrivateManagerError>(true)
    } else {
        r matches Err(PrivateManagerError::QueryTooOften(w))
            && w == spec_wait_secs(c, m.interval, ts)
    }
}

impl PrivateManager {
    /// A scope manager with the given cooldown interval and no history.
    pub fn new(interval: u64) -> (r: Self)
        ensures
            r@.contexts == Map::<u64, ChatContextView>::empty(),
            r@.interval == interval,
            r@.deny_list == Set::<u64>::empty(),
    {
        let r = PrivateManager {
            contexts: HashMap::new(),
            interval,
            deny_list: HashSet::new(),
        };
        proof {
            assert(r@.contexts =~= Map::<u64, ChatContextView>::empty());
        }
        r
    }

    /// A scope manager with the given cooldown interval and a deny list
    /// carried over from storage.
    pub fn new_with_history(interval: u64, deny_list: HashSet<u64>) -> (r: Self)
        ensures
            r@.contexts == Map::<u64, ChatContextView>::empty(),
            r@.interval == interval,
            r@.deny_list == deny_list@,
    {
        let r = PrivateManager { contexts: HashMap::new(), interval, deny_list };
        proof {
            assert(r@.contexts =~= Map::<u64, ChatContextView>::empty());
        }
        r
    }

    /// Adds an identity to this scope's deny list.
    pub fn deny(&mut self, user_id: u64)
        ensures
            final(self)@ == (PrivateManagerView {
                deny_list: old(self)@.deny_list.insert(user_id),
                ..old(self)@
            }),
    {
        self.deny_list.insert(user_id);
        proof {
            assert(self@ =~= (PrivateManagerView {
                deny_list: old(self)@.deny_list.insert(user_id),
                ..old(self)@
            }));
        }
    }

    /// Removes an identity from this scope's deny list.
    pub fn allow(&mut self, user_id: u64)
        ensures
            final(self)@ == (PrivateManagerView {
                deny_list: old(self)@.deny_list.remove(user_id),
                ..old(self)@
            }),
    {
        self.deny_list.remove(&user_id);
        proof {
            assert(self@ =~= (PrivateManagerView {
                deny_list: old(self)@.deny_list.remove(user_id),
                ..old(self)@
            }));
        }
    }

    /// Is the identity refused service in this scope?
    pub fn is_deny(&self, qq: u64) -> (r: bool)
        ensures
            r == self@.deny_list.contains(qq),
    {
        self.deny_list.contains(&qq)
    }

    /// Reseeds one identity's context (when it has one), or every context in
    /// the scope.
    pub fn reset(&mut self, user_id: Option<u64>)
        ensures
            final(self)@ == spec_reset_scope(old(self)@, user_id),
    {
        match user_id {
            Some(user_id) => {
                match self.contexts.remove(&user_id) {
                    Some(mut c) => {
                        c.reset();
                        self.contexts.insert(user_id, c);
                        proof {
                            assert(self@ =~= spec_reset_scope(old(self)@, Some(user_id)));
                        }
                    },
                    None => {
                        proof {
                            assert(self@ =~= spec_reset_scope(old(self)@, Some(user_id)));
                        }
                    },
                }
            },
            None => {
                let ks = hash_keys(&self.contexts);
                let n = ks.len();
                let mut idx: usize = 0;
                while idx < n
                    invariant
                        idx <= n,
                        n == ks@.len(),
                        ks@.to_set() == old(self)@.contexts.dom(),
                        ks@.no_duplicates(),
                        self@.interval == old(self)@.interval,
                        self@.deny_list == old(self)@.deny_list,
                        self@.contexts.dom() == old(self)@.contexts.dom(),
                        forall|j: int| 0 <= j < idx ==> self@.contexts[#[trigger] ks@[j]]
                            == spec_reset(old(self)@.contexts[ks@[j]]),
                        forall|j: int| idx <= j < n ==> self@.contexts[#[trigger] ks@[j]]
                            == old(self)@.contexts[ks@[j]],
                    decreases n - idx,
                {
                    let k = ks[idx];
                    proof {
                        assert(ks@.to_set().contains(k));
                    }
                    let mut c = match self.contexts.remove(&k) {
                        Some(c) => c,
                        None => {
                            proof {
                                assert(false);
                            }
                            ChatContext::new_chat_context(k)
                        },
                    };
                    c.reset();
                    self.contexts.insert(k, c);
                    idx += 1;
                }
                proof {
                    assert forall|k: u64| #[trigger] old(self)@.contexts.contains_key(k) implies
                        self@.contexts[k] == spec_reset(old(self)@.contexts[k]) by {
                        assert(ks@.to_set().contains(k));
                        assert(ks@.contains(k));
                        let j = choose|j: int| 0 <= j < ks@.len() && ks@[j] == k;
                        assert(self@.contexts[ks@[j]] == spec_reset(old(self)@.contexts[ks@[j]]));
                    }
                    assert(self@.contexts =~= spec_reset_scope(old(self)@, None::<u64>).contexts);
                    assert(self@ =~= spec_reset_scope(old(self)@, None::<u64>));
                }
            },
        }
    }

    /// The identity's history, when it has a context in this scope.
    pub fn get_histories(&self, user_id: u64) -> (r: Option<&Vec<GPTMessages>>)
        ensures
            match r {
                Some(h) => self@.contexts.contains_key(user_id) && msgs_view(h@)
                    == self@.contexts[user_id].histories,
                None => !self@.contexts.contains_key(user_id),
            },
    {
        match self.contexts.get(&user_id) {
            Some(c) => Some(c.histories()),
            None => None,
        }
    }

    /// Appends a message to the identity's history: the committed reply of a
    /// resolved turn.
    pub fn push_history(&mut self, user_id: u64, msg: GPTMessages)
        requires
            old(self)@.contexts.contains_key(user_id),
        ensures
            final(self)@ == (PrivateManagerView {
                contexts: old(self)@.contexts.insert(
                    user_id,
                    ChatContextView {
                        histories: old(self)@.contexts[user_id].histories.push(msg@),
                        ..old(self)@.contexts[user_id]
                    },
                ),
                ..old(self)@
            }),
    {
        let mut c = match self.contexts.remove(&user_id) {
            Some(c) => c,
            None => {
                proof {
                    assert(false);
                }
                ChatContext::new_chat_context(user_id)
            },
        };
        c.histories.push(msg);
        self.contexts.insert(user_id, c);
        proof {
            assert(msgs_view(c.histories@) =~= old(self)@.contexts[user_id].histories.push(msg@));
            assert(self@ =~= (PrivateManagerView {
                contexts: old(self)@.contexts.insert(
                    user_id,
                    ChatContextView {
                        histories: old(self)@.contexts[user_id].histories.push(msg@),
                        ..old(self)@.contexts[user_id]
                    },
                ),
                ..old(self)@
            }));
        }
    }

    /// Drops the most recently appended message of the identity's history:
    /// the rollback of a failed turn.
    pub fn pop_history(&mut self, user_id: u64)
        requires
            old(self)@.contexts.contains_key(user_id),
        ensures
            final(self)@ == (PrivateManagerView {
                contexts: old(self)@.contexts.insert(
                    user_id,
                    ChatContextView {
                        histories: spec_pop_msg(old(self)@.contexts[user_id].histories),
                        ..old(self)@.contexts[user_id]
                    },
                ),
                ..old(self)@
            }),
    {
        let mut c = match self.contexts.remove(&user_id) {
            Some(c) => c,
            None => {
                proof {
                    assert(false);
                }
                ChatContext::new_chat_context(user_id)
            },
        };
        c.histories.pop();
        self.contexts.insert(user_id, c);
        proof {
            assert(msgs_view(c.histories@) =~= spec_pop_msg(
                old(self)@.contexts[user_id].histories,
            ));
            assert(self@ =~= (PrivateManagerView {
                contexts: old(self)@.contexts.insert(
                    user_id,
                    ChatContextView {
                        histories: spec_pop_msg(old(self)@.contexts[user_id].histories),
                        ..old(self)@.contexts[user_id]
                    },
                ),
                ..old(self)@
            }));
        }
    }

    /// Creates the identity's context when it has none, changing nothing
    /// else.
    pub fn new_empty_context(&mut self, user_id: u64)
        ensures
            final(self)@ == spec_with_ctx(old(self)@, user_id),
    {
        if !self.contexts.contains_key(&user_id) {
            let c = ChatContext::new_chat_context(user_id);
            self.contexts.insert(user_id, c);
        }
        proof {
            assert(self@ =~= spec_with_ctx(old(self)@, user_id));
        }
    }

    /// Handles one inbound message for `user_id` at time `ts`.
    ///
    /// `Err(e)` is surfaced to the user at once; `Ok(true)` asks the caller
    /// to go on and perform the remote completion call (the pending user turn
    /// is already appended and the in-flight flag set); `Ok(false)` means the
    /// sender is denied and nothing is to be done.
    pub fn pre_handle_private_message(&mut self, user_id: u64, ts: u64, message: String) -> (r:
        Result<bool, PrivateManagerError>)
        ensures
            final(self)@ == spec_pre_handle(old(self)@, user_id, ts, message@),
            spec_pre_handle_result(old(self)@, user_id, ts, message@, r),
    {
        if self.is_deny(user_id) {
            return Ok(false);
        }
        let mut ctx = match self.contexts.remove(&user_id) {
            Some(c) => c,
            None => ChatContext::new_chat_context(user_id),
        };
        let mlen = message.as_str().unicode_len();
        let is_cmd = mlen > 0 && message.as_str().get_char(0) == '#';
        if is_cmd {
            let op = {
                let s = message.as_str();
                let rest = s.substring_char(1, mlen);
                proof {
                    assert(rest@ =~= message@.skip(1));
                }
                parse_instructions(rest)
            };
            let err = match op {
                Opcode::Invalid => PrivateManagerError::InvalidCommand,
                Opcode::Role(r) => {
                    ctx.set_role(&r);
                    let mut s = "> set role succ ".to_owned();
                    s.append(r.description());
                    PrivateManagerError::CommandSuccess(s)
                },
                Opcode::Clean => {
                    ctx.clean();
                    PrivateManagerError::CommandSuccess("> clean success".to_owned())
                },
                Opcode::Reset => {
                    ctx.reset();
                    PrivateManagerError::CommandSuccess("> reset success".to_owned())
                },
                Opcode::Help => {
                    let mut s = "> help:\n".to_owned();
                    s.append(COMMAND_HELP_INFO);
                    PrivateManagerError::CommandSuccess(s)
                },
            };
            self.contexts.insert(user_id, ctx);
            proof {
                assert(self@ =~= spec_pre_handle(old(self)@, user_id, ts, message@));
            }
            Err(err)
        } else {
            if ctx.wait_gpt_reply {
                self.contexts.insert(user_id, ctx);
                proof {
                    assert(self@ =~= spec_pre_handle(old(self)@, user_id, ts, message@));
                }
                return Err(PrivateManagerError::OnceMessageATime);
            }
            let (too_often, wait) = ctx.query_too_often(self.interval, ts);
            if too_often {
                self.contexts.insert(user_id, ctx);
                proof {
                    assert(self@ =~= spec_pre_handle(old(self)@, user_id, ts, message@));
                }
                return Err(PrivateManagerError::QueryTooOften(wait));
            }
            ctx.histories.push(GPTMessages::new_user_message(message));
            ctx.wait_gpt_reply = true;
            self.contexts.insert(user_id, ctx);
            proof {
                assert(msgs_view(ctx.histories@) =~= spec_handle_ctx(
                    spec_ctx_or_fresh(old(self)@, user_id),
                    old(self)@.interval,
                    ts,
                    message@,
                ).histories);
                assert(self@ =~= spec_pre_handle(old(self)@, user_id, ts, message@));
            }
            Ok(true)
        }
    }

    /// Clears the identity's in-flight flag: the unconditional end of a turn,
    /// reached on success and on failure alike.
    pub fn after_handle_private_message(&mut self, user_id: u64)
        requires
            old(self)@.contexts.contains_key(user_id),
        ensures
            final(self)@ == (PrivateManagerView {
                contexts: old(self)@.contexts.insert(
                    user_id,
                    ChatContextView {
                        wait_gpt_reply: false,
                        ..old(self)@.contexts[user_id]
                    },
                ),
                ..old(self)@
            }),
    {
        let mut c = match self.contexts.remove(&user_id) {
            Some(c) => c,
            None => {
                proof {
                    assert(false);
                }
                ChatContext::new_chat_context(user_id)
            },
        };
        c.wait_gpt_reply = false;
        self.contexts.insert(user_id, c);
        proof {
            assert(self@ =~= (PrivateManagerView {
                contexts: old(self)@.contexts.insert(
                    user_id,
                    ChatContextView {
                        wait_gpt_reply: false,
                        ..old(self)@.contexts[user_id]
                    },
                ),
                ..old(self)@
            }));
        }
    }

    /// The scope's cooldown interval.
    pub fn interval(&self) -> (r: u64)
        ensures
            r == self@.interval,
    {
        self.interval
    }
}

/// A history with its most recently appended message dropped; an empty
/// history stays empty.
pub open spec fn spec_pop_msg(s: Seq<crate::gpt::GPTMessageView>) -> Seq<crate::gpt::GPTMessageView> {
    if s.len() == 0 {
        s
    } else {
        s.drop_last()
    }
}

/// A scope after creating the identity's context if it was absent.
pub open spec fn spec_with_ctx(m: PrivateManagerView, user_id: u64) -> PrivateManagerView {
    if m.contexts.contains_key(user_id) {
        m
    } else {
        PrivateManagerView {
            contexts: m.contexts.insert(user_id, spec_fresh_context(user_id)),
            ..m
        }
    }
}

/// A scope after an admin reset of one identity (a no-op when it has no
/// context) or of every identity.
pub open spec fn spec_reset_scope(m: PrivateManagerView, user_id: Option<u64>) -> PrivateManagerView {
    match user_id {
        Some(u) => if m.contexts.contains_key(u) {
            PrivateManagerView {
                contexts: m.contexts.insert(u, spec_reset(m.contexts[u])),
                ..m
            }
        } else {
            m
        },
        None => PrivateManagerView {
            contexts: m.contexts.map_values(|c: ChatContextView| spec_reset(c)),
            ..m
        },
    }
}

/// The keys of a hash map, in some order, each exactly once.
fn hash_keys<V>(m: &HashMap<u64, V>) -> (ks: Vec<u64>)
    ensures
        ks@.to_set() == m@.dom(),
        ks@.no_duplicates(),
        ks@.len() == m@.dom().len(),
{
    let mut ks: Vec<u64> = Vec::new();
    for k in it: m.keys()
        invariant
            ks@.len() == it.index(),
            it.seq() == vstd::std_specs::hash::spec_keys_iter(m).remaining(),
            forall|j: int| 0 <= j < it.index() ==> ks@[j] == *(#[trigger] it.seq()[j]),
    {
        ks.push(*k);
    }
    proof {
        let rem = vstd::std_specs::hash::spec_keys_iter(m).remaining();
        assert(rem.unref().to_set() == m@.dom());
        assert(ks@ =~= rem.unref());
        assert forall|i: int, j: int| 0 <= i < j < ks@.len() implies ks@[i] != ks@[j] by {
            assert(rem[i] != rem[j]);
        }
        assert(ks@.no_duplicates());
    }
    ks
}

} // verus!

verus! {

/// Cooldown of the private scope, in seconds.
pub const PRIVATE_COOLDOWN_SECS: u64 = 1;

/// Cooldown of every group scope, in seconds: longer, since a group shares
/// the resource.
pub const GROUP_COOLDOWN_SECS: u64 = 10;

/// The session router: one scope manager per group, the private scope
/// manager, the configured admin identity, and the deny-list store.
#[derive(Debug)]
pub struct ChatManager {
    group_contexts: HashMap<u64, PrivateManager>,
    private_context: PrivateManager,
    root_qq: u64,
    history: BotHistory,
}

/// Mathematical value of a [`ChatManager`].
#[verifier::ext_equal]
pub struct ChatManagerView {
    pub group_contexts: Map<u64, PrivateManagerView>,
    pub private_context: PrivateManagerView,
    pub root_qq: u64,
    pub history: BotHistoryView,
}

impl View for ChatManager {
    type V = ChatManagerView;

    closed spec fn view(&self) -> ChatManagerView {
        ChatManagerView {
            group_contexts: self.group_contexts@.map_values(|p: PrivateManager| p@),
            private_context: self.private_context@,
            root_qq: self.root_qq,
            history: self.history@,
        }
    }
}

/// A group scope as created on first contact: group cooldown, given denies.
pub open spec fn spec_fresh_group_pm(denies: Set<u64>) -> PrivateManagerView {
    PrivateManagerView {
        contexts: Map::empty(),
        interval: GROUP_COOLDOWN_SECS,
        deny_list: denies,
    }
}

/// The scope manager a scope key resolves to; an unknown group resolves to a
/// fresh one.
pub open spec fn spec_scope(m: ChatManagerView, group_id: Option<u64>) -> PrivateManagerView {
    match group_id {
        None => m.private_context,
        Some(g) => if m.group_contexts.contains_key(g) {
            m.group_contexts[g]
        } else {
            spec_fresh_group_pm(Set::empty())
        },
    }
}

/// The router with one scope's manager replaced.
pub open spec fn spec_set_scope(
    m: ChatManagerView,
    group_id: Option<u64>,
    pm: PrivateManagerView,
) -> ChatManagerView {
    match group_id {
        None => ChatManagerView { private_context: pm, ..m },
        Some(g) => ChatManagerView { group_contexts: m.group_contexts.insert(g, pm), ..m },
    }
}

/// Does the text open with the admin command prefix?
pub open spec fn spec_is_sudo(msg: Seq<char>) -> bool {
    crate::text::spec_has_prefix(msg, "#sudo"@)
}

/// The router after ensuring a scope key resolves to a live scope manager.
pub open spec fn spec_ensure_scope(m: ChatManagerView, group_id: Option<u64>) -> ChatManagerView {
    match group_id {
        None => m,
        Some(g) => if m.group_contexts.contains_key(g) {
            m
        } else {
            ChatManagerView {
                group_contexts: m.group_contexts.insert(g, spec_fresh_group_pm(Set::empty())),
                ..m
            }
        },
    }
}

/// The router after ensuring the scope and the sender's context exist.
pub open spec fn spec_touch(m: ChatManagerView, group_id: Option<u64>, user_id: u64) -> ChatManagerView {
    spec_set_scope(m, group_id, spec_with_ctx(spec_scope(m, group_id), user_id))
}

/// The whole router after one inbound message was routed: the sender's
/// context is created on first contact; an admin command from the root
/// identity mutates the scope and the deny-list store; anything else is
/// handled by the scope manager.
pub open spec fn spec_route_state(
    m: ChatManagerView,
    group_id: Option<u64>,
    user_id: u64,
    ts: u64,
    msg: Seq<char>,
) -> ChatManagerView {
    let m1 = spec_touch(m, group_id, user_id);
    if spec_is_sudo(msg) {
        if user_id != m.root_qq {
            m1
        } else {
            let pm = spec_scope(m1, group_id);
            match crate::command::spec_parse_root_instructions(msg.skip(5)) {
                crate::command::RootOpcode::Invalid => m1,
                crate::command::RootOpcode::Deny(q) => ChatManagerView {
                    history: crate::history::spec_sync_op(
                        m1.history,
                        group_id,
                        crate::history::BotHistoryOp::AddDeny(q),
                    ),
                    ..spec_set_scope(
                        m1,
                        group_id,
                        PrivateManagerView { deny_list: pm.deny_list.insert(q), ..pm },
                    )
                },
                crate::command::RootOpcode::Allow(q) => ChatManagerView {
                    history: crate::history::spec_sync_op(
                        m1.history,
                        group_id,
                        crate::history::BotHistoryOp::RemoveDeny(q),
                    ),
                    ..spec_set_scope(
                        m1,
                        group_id,
                        PrivateManagerView { deny_list: pm.deny_list.remove(q), ..pm },
                    )
                },
                crate::command::RootOpcode::Reset(q) => spec_set_scope(
                    m1,
                    group_id,
                    spec_reset_scope(pm, Some(q)),
                ),
                crate::command::RootOpcode::ResetAll => spec_set_scope(
                    m1,
                    group_id,
                    spec_reset_scope(pm, None),
                ),
            }
        }
    } else {
        spec_set_scope(m1, group_id, spec_pre_handle(spec_scope(m1, group_id), user_id, ts, msg))
    }
}

/// What routing one inbound message returns, case by case.
pub open spec fn spec_route_result(
    m: ChatManagerView,
    group_id: Option<u64>,
    user_id: u64,
    ts: u64,
    msg: Seq<char>,
    r: Result<bool, PrivateManagerError>,
) -> bool {
    if spec_is_sudo(msg) {
        if user_id != m.root_qq {
            r matches Err(PrivateManagerError::PermissionDeny)
        } else {
            match crate::command::spec_parse_root_instructions(msg.skip(5)) {
                crate::command::RootOpcode::Invalid => r matches Err(
                    PrivateManagerError::InvalidCommand,
                ),
                crate::command::RootOpcode::Deny(q) => r matches Err(
                    PrivateManagerError::CommandSuccess(s),
                ) && s@ == "Deny "@ + spec_u64_chars(q as nat),
                crate::command::RootOpcode::Allow(q) => r matches Err(
                    PrivateManagerError::CommandSuccess(s),
                ) && s@ == "Allow "@ + spec_u64_chars(q as nat),
                crate::command::RootOpcode::Reset(q) => r matches Err(
                    PrivateManagerError::CommandSuccess(s),
                ) && s@ == "Reset "@ + spec_u64_chars(q as nat),
                crate::command::RootOpcode::ResetAll => r matches Err(
                    PrivateManagerError::CommandSuccess(s),
                ) && s@ == "Reset All"@,
            }
        }
    } else {
        spec_pre_handle_result(
            spec_with_ctx(spec_scope(m, group_id), user_id),
            user_id,
            ts,
            msg,
            r,
        )
    }
}

impl ChatManager {
    /// A router for the given admin identity, its scopes seeded from the
    /// deny-list store: one group scope per group the store knows, with the
    /// stored deny list, and the private scope empty.
    pub fn new(root_qq: u64, history: BotHistory) -> (r: Self)
        ensures
            r@.root_qq == root_qq,
            r@.history == history@,
            r@.private_context == (PrivateManagerView {
                contexts: Map::empty(),
                interval: PRIVATE_COOLDOWN_SECS,
                deny_list: Set::empty(),
            }),
            r@.group_contexts.dom() == history@.groups.dom(),
            forall|g: u64| #[trigger] history@.groups.contains_key(g)
                ==> r@.group_contexts[g] == spec_fresh_group_pm(history@.groups[g]),
    {
        let mut gh = history.load_group_deny_history();
        let ghost gh0 = gh@;
        let ks = hash_keys(&gh);
        let n = ks.len();
        let mut group_contexts: HashMap<u64, PrivateManager> = HashMap::new();
        let mut idx: usize = 0;
        while idx < n
            invariant
                idx <= n,
                n == ks@.len(),
                ks@.to_set() == gh0.dom(),
                ks@.no_duplicates(),
                gh0.map_values(|s: HashSet<u64>| s@) == history@.groups,
                forall|j: int| idx <= j < n ==> gh@.contains_key(#[trigger] ks@[j]) && gh@[ks@[j]]
                    == gh0[ks@[j]],
                forall|j: int| 0 <= j < idx ==> group_contexts@.contains_key(#[trigger] ks@[j])
                    && group_contexts@[ks@[j]]@ == spec_fresh_group_pm(gh0[ks@[j]]@),
                forall|g: u64| #[trigger] group_contexts@.contains_key(g) ==> ks@.take(
                    idx as int,
                ).contains(g),
            decreases n - idx,
        {
            let k = ks[idx];
            let set = match gh.remove(&k) {
                Some(s) => s,
                None => {
                    proof {
                        assert(false);
                    }
                    HashSet::new()
                },
            };
            group_contexts.insert(k, PrivateManager::new_with_history(GROUP_COOLDOWN_SECS, set));
            idx += 1;
            proof {
                assert forall|g: u64| #[trigger] group_contexts@.contains_key(g) implies ks@.take(
                    idx as int,
                ).contains(g) by {
                    if g == k {
                        assert(ks@.take(idx as int)[idx - 1] == k);
                    } else {
                        assert(ks@.take(idx as int - 1).contains(g));
                        let j = choose|j: int|
                            0 <= j < idx - 1 && #[trigger] ks@.take(idx as int - 1)[j] == g;
                        assert(ks@.take(idx as int)[j] == g);
                    }
                }
            }
        }
        let r = ChatManager {
            group_contexts,
            private_context: PrivateManager::new(PRIVATE_COOLDOWN_SECS),
            root_qq,
            history,
        };
        proof {
            assert forall|g: u64| #[trigger] gh0.contains_key(g) implies
                r@.group_contexts.contains_key(g) && r@.group_contexts[g] == spec_fresh_group_pm(
                gh0[g]@,
            ) by {
                assert(ks@.to_set().contains(g));
                assert(ks@.contains(g));
                let j = choose|j: int| 0 <= j < ks@.len() && ks@[j] == g;
                assert(group_contexts@.contains_key(ks@[j]));
            }
            assert forall|g: u64| #[trigger] r@.group_contexts.contains_key(g) implies
                gh0.contains_key(g) by {
                assert(ks@.take(n as int) =~= ks@);
                assert(ks@.contains(g));
                assert(ks@.to_set().contains(g));
            }
            assert(r@.group_contexts.dom() =~= history@.groups.dom());
            assert forall|g: u64| #[trigger] history@.groups.contains_key(g) implies
                r@.group_contexts[g] == spec_fresh_group_pm(history@.groups[g]) by {
                assert(gh0.contains_key(g));
                assert(history@.groups[g] == gh0[g]@);
            }
            assert(r@.private_context =~= (PrivateManagerView {
                contexts: Map::empty(),
                interval: PRIVATE_COOLDOWN_SECS,
                deny_list: Set::empty(),
            }));
        }
        r
    }

    /// Ensures the scope and the sender's context exist.
    fn ensure_context(&mut self, group_id: Option<u64>, user_id: u64)
        ensures
            final(self)@ == spec_touch(old(self)@, group_id, user_id),
    {
        match group_id {
            None => {
                self.private_context.new_empty_context(user_id);
                proof {
                    assert(self@ =~= spec_touch(old(self)@, None::<u64>, user_id));
                }
            },
            Some(g) => {
                let mut pm = match self.group_contexts.remove(&g) {
                    Some(pm) => pm,
                    None => PrivateManager::new(GROUP_COOLDOWN_SECS),
                };
                pm.new_empty_context(user_id);
                self.group_contexts.insert(g, pm);
                proof {
                    assert(spec_with_ctx(spec_scope(old(self)@, group_id), user_id) =~= pm@);
                    assert(self@ =~= spec_touch(old(self)@, group_id, user_id));
                }
            },
        }
    }

    /// Adds an identity to one scope's deny list.
    fn scope_deny(&mut self, group_id: Option<u64>, q: u64)
        ensures
            final(self)@ == spec_set_scope(
                old(self)@,
                group_id,
                PrivateManagerView {
                    deny_list: spec_scope(old(self)@, group_id).deny_list.insert(q),
                    ..spec_scope(old(self)@, group_id)
                },
            ),
    {
        match group_id {
            None => {
                self.private_context.deny(q);
                proof {
                    assert(self@ =~= spec_set_scope(
                        old(self)@,
                        group_id,
                        PrivateManagerView {
                            deny_list: spec_scope(old(self)@, group_id).deny_list.insert(q),
                            ..spec_scope(old(self)@, group_id)
                        },
                    ));
                }
            },
            Some(g) => {
                let mut pm = match self.group_contexts.remove(&g) {
                    Some(pm) => pm,
                    None => PrivateManager::new(GROUP_COOLDOWN_SECS),
                };
                pm.deny(q);
                self.group_contexts.insert(g, pm);
                proof {
                    assert(pm@ =~= (PrivateManagerView {
                        deny_list: spec_scope(old(self)@, group_id).deny_list.insert(q),
                        ..spec_scope(old(self)@, group_id)
                    }));
                    assert(self@ =~= spec_set_scope(
                        old(self)@,
                        group_id,
                        PrivateManagerView {
                            deny_list: spec_scope(old(self)@, group_id).deny_list.insert(q),
                            ..spec_scope(old(self)@, group_id)
                        },
                    ));
                }
            },
        }
    }

    /// Removes an identity from one scope's deny list.
    fn scope_allow(&mut self, group_id: Option<u64>, q: u64)
        ensures
            final(self)@ == spec_set_scope(
                old(self)@,
                group_id,
                PrivateManagerView {
                    deny_list: spec_scope(old(self)@, group_id).deny_list.remove(q),
                    ..spec_scope(old(self)@, group_id)
                },
            ),
    {
        match group_id {
            None => {
                self.private_context.allow(q);
                proof {
                    assert(self@ =~= spec_set_scope(
                        old(self)@,
                        group_id,
                        PrivateManagerView {
                            deny_list: spec_scope(old(self)@, group_id).deny_list.remove(q),
                            ..spec_scope(old(self)@, group_id)
                        },
                    ));
                }
            },
            Some(g) => {
                let mut pm = match self.group_contexts.remove(&g) {
                    Some(pm) => pm,
                    None => PrivateManager::new(GROUP_COOLDOWN_SECS),
                };
                pm.allow(q);
                self.group_contexts.insert(g, pm);
                proof {
                    assert(pm@ =~= (PrivateManagerView {
                        deny_list: spec_scope(old(self)@, group_id).deny_list.remove(q),
                        ..spec_scope(old(self)@, group_id)
                    }));
                    assert(self@ =~= spec_set_scope(
                        old(self)@,
                        group_id,
                        PrivateManagerView {
                            deny_list: spec_scope(old(self)@, group_id).deny_list.remove(q),
                            ..spec_scope(old(self)@, group_id)
                        },
                    ));
                }
            },
        }
    }

    /// Resets one identity, or a whole scope.
    fn scope_reset(&mut self, group_id: Option<u64>, user_id: Option<u64>)
        ensures
            final(self)@ == spec_set_scope(
                old(self)@,
                group_id,
                spec_reset_scope(spec_scope(old(self)@, group_id), user_id),
            ),
    {
        match group_id {
            None => {
                self.private_context.reset(user_id);
                proof {
                    assert(self@ =~= spec_set_scope(
                        old(self)@,
                        group_id,
                        spec_reset_scope(spec_scope(old(self)@, group_id), user_id),
                    ));
                }
            },
            Some(g) => {
                let mut pm = match self.group_contexts.remove(&g) {
                    Some(pm) => pm,
                    None => PrivateManager::new(GROUP_COOLDOWN_SECS),
                };
                pm.reset(user_id);
                self.group_contexts.insert(g, pm);
                proof {
                    assert(pm@ =~= spec_reset_scope(spec_scope(old(self)@, group_id), user_id));
                    assert(self@ =~= spec_set_scope(
                        old(self)@,
                        group_id,
                        spec_reset_scope(spec_scope(old(self)@, group_id), user_id),
                    ));
                }
            },
        }
    }

    /// Hands one inbound message to its scope manager.
    fn scope_pre_handle(
        &mut self,
        group_id: Option<u64>,
        user_id: u64,
        ts: u64,
        message: String,
    ) -> (r: Result<bool, PrivateManagerError>)
        ensures
            final(self)@ == spec_set_scope(
                old(self)@,
                group_id,
                spec_pre_handle(spec_scope(old(self)@, group_id), user_id, ts, message@),
            ),
            spec_pre_handle_result(spec_scope(old(self)@, group_id), user_id, ts, message@, r),
    {
        match group_id {
            None => {
                let r = self.private_context.pre_handle_private_message(user_id, ts, message);
                proof {
                    assert(self@ =~= spec_set_scope(
                        old(self)@,
                        group_id,
                        spec_pre_handle(spec_scope(old(self)@, group_id), user_id, ts, message@),
                    ));
                }
                r
            },
            Some(g) => {
                let mut pm = match self.group_contexts.remove(&g) {
                    Some(pm) => pm,
                    None => PrivateManager::new(GROUP_COOLDOWN_SECS),
                };
                let r = pm.pre_handle_private_message(user_id, ts, message);
                self.group_contexts.insert(g, pm);
                proof {
                    assert(pm@ =~= spec_pre_handle(
                        spec_scope(old(self)@, group_id),
                        user_id,
                        ts,
                        message@,
                    ));
                    assert(self@ =~= spec_set_scope(
                        old(self)@,
                        group_id,
                        spec_pre_handle(spec_scope(old(self)@, group_id), user_id, ts, message@),
                    ));
                }
                r
            },
        }
    }

    /// Routes one inbound message.
    ///
    /// The sender's context is created on first contact, even for messages
    /// that end up rejected. A message opening with the admin prefix needs
    /// the sender to be the configured admin identity and runs an admin
    /// command; each deny-list mutation is applied to the store before the
    /// command is acknowledged (the caller persists the store right after).
    /// Everything else goes to the scope manager: commands, and the
    /// admission of user turns.
    pub fn pre_handle_private_message(
        &mut self,
        group_id: Option<u64>,
        user_id: u64,
        ts: u64,
        message: String,
    ) -> (r: Result<bool, PrivateManagerError>)
        ensures
            final(self)@ == spec_route_state(old(self)@, group_id, user_id, ts, message@),
            spec_route_result(old(self)@, group_id, user_id, ts, message@, r),
    {
        self.ensure_context(group_id, user_id);
        let is_sudo = crate::text::str_has_prefix(message.as_str(), "#sudo");
        if is_sudo {
            if user_id != self.root_qq {
                return Err(PrivateManagerError::PermissionDeny);
            }
            let mlen = message.as_str().unicode_len();
            proof {
                reveal_strlit("#sudo");
            }
            let op = {
                let s = message.as_str();
                let rest = s.substring_char(5, mlen);
                proof {
                    assert(rest@ =~= message@.skip(5));
                }
                crate::command::parse_root_instructions(rest)
            };
            let err = match op {
                crate::command::RootOpcode::Invalid => PrivateManagerError::InvalidCommand,
                crate::command::RootOpcode::Deny(q) => {
                    self.scope_deny(group_id, q);
                    self.history.sync_op(group_id, crate::history::BotHistoryOp::AddDeny(q));
                    let mut s = "Deny ".to_owned();
                    let t = u64_to_string(q);
                    s.append(t.as_str());
                    PrivateManagerError::CommandSuccess(s)
                },
                crate::command::RootOpcode::Allow(q) => {
                    self.scope_allow(group_id, q);
                    self.history.sync_op(group_id, crate::history::BotHistoryOp::RemoveDeny(q));
                    let mut s = "Allow ".to_owned();
                    let t = u64_to_string(q);
                    s.append(t.as_str());
                    PrivateManagerError::CommandSuccess(s)
                },
                crate::command::RootOpcode::Reset(q) => {
                    self.scope_reset(group_id, Some(q));
                    let mut s = "Reset ".to_owned();
                    let t = u64_to_string(q);
                    s.append(t.as_str());
                    PrivateManagerError::CommandSuccess(s)
                },
                crate::command::RootOpcode::ResetAll => {
                    self.scope_reset(group_id, None);
                    PrivateManagerError::CommandSuccess("Reset All".to_owned())
                },
            };
            proof {
                assert(self@ =~= spec_route_state(old(self)@, group_id, user_id, ts, message@));
            }
            Err(err)
        } else {
            let r = self.scope_pre_handle(group_id, user_id, ts, message);
            proof {
                assert(self@ =~= spec_route_state(old(self)@, group_id, user_id, ts, message@));
            }
            r
        }
    }

    /// Clears the sender's in-flight flag: the unconditional end of a turn.
    pub fn after_handle_private_message(&mut self, group_id: Option<u64>, user_id: u64)
        requires
            spec_scope(old(self)@, group_id).contexts.contains_key(user_id),
        ensures
            final(self)@ == spec_set_scope(
                old(self)@,
                group_id,
                PrivateManagerView {
                    contexts: spec_scope(old(self)@, group_id).contexts.insert(
                        user_id,
                        ChatContextView {
                            wait_gpt_reply: false,
                            ..spec_scope(old(self)@, group_id).contexts[user_id]
                        },
                    ),
                    ..spec_scope(old(self)@, group_id)
                },
            ),
    {
        match group_id {
            None => {
                self.private_context.after_handle_private_message(user_id);
                proof {
                    assert(self@ =~= spec_set_scope(
                        old(self)@,
                        group_id,
                        PrivateManagerView {
                            contexts: spec_scope(old(self)@, group_id).contexts.insert(
                                user_id,
                                ChatContextView {
                                    wait_gpt_reply: false,
                                    ..spec_scope(old(self)@, group_id).contexts[user_id]
                                },
                            ),
                            ..spec_scope(old(self)@, group_id)
                        },
                    ));
                }
            },
            Some(g) => {
                let mut pm = match self.group_contexts.remove(&g) {
                    Some(pm) => pm,
                    None => {
                        proof {
                            assert(false);
                        }
                        PrivateManager::new(GROUP_COOLDOWN_SECS)
                    },
                };
                pm.after_handle_private_message(user_id);
                self.group_contexts.insert(g, pm);
                proof {
                    assert(self@ =~= spec_set_scope(
                        old(self)@,
                        group_id,
                        PrivateManagerView {
                            contexts: spec_scope(old(self)@, group_id).contexts.insert(
                                user_id,
                                ChatContextView {
                                    wait_gpt_reply: false,
                                    ..spec_scope(old(self)@, group_id).contexts[user_id]
                                },
                            ),
                            ..spec_scope(old(self)@, group_id)
                        },
                    ));
                }
            },
        }
    }

    /// The sender's full history snapshot, to replay to the remote service.
    /// An unknown group's scope is created on the way, as on any first
    /// contact.
    pub fn get_histories(&mut self, group_id: Option<u64>, user_id: u64) -> (r: Option<
        &Vec<GPTMessages>,
    >)
        ensures
            final(self)@ == spec_ensure_scope(old(self)@, group_id),
            match r {
                Some(h) => spec_scope(old(self)@, group_id).contexts.contains_key(user_id)
                    && msgs_view(h@) == spec_scope(old(self)@, group_id).contexts[user_id].histories,
                None => !spec_scope(old(self)@, group_id).contexts.contains_key(user_id),
            },
    {
        match group_id {
            None => self.private_context.get_histories(user_id),
            Some(g) => {
                if !self.group_contexts.contains_key(&g) {
                    self.group_contexts.insert(g, PrivateManager::new(GROUP_COOLDOWN_SECS));
                }
                proof {
                    assert(self@ =~= spec_ensure_scope(old(self)@, group_id));
                }
                match self.group_contexts.get(&g) {
                    Some(pm) => pm.get_histories(user_id),
                    None => {
                        proof {
                            assert(false);
                        }
                        None
                    },
                }
            },
        }
    }

    /// Appends the committed reply of a resolved turn.
    pub fn push_history(&mut self, group_id: Option<u64>, user_id: u64, msg: GPTMessages)
        requires
            spec_scope(old(self)@, group_id).contexts.contains_key(user_id),
        ensures
            final(self)@ == spec_set_scope(
                old(self)@,
                group_id,
                PrivateManagerView {
                    contexts: spec_scope(old(self)@, group_id).contexts.insert(
                        user_id,
                        ChatContextView {
                            histories: spec_scope(
                                old(self)@,
                                group_id,
                            ).contexts[user_id].histories.push(msg@),
                            ..spec_scope(old(self)@, group_id).contexts[user_id]
                        },
                    ),
                    ..spec_scope(old(self)@, group_id)
                },
            ),
    {
        match group_id {
            None => {
                self.private_context.push_history(user_id, msg);
                proof {
                    assert(self@ =~= spec_set_scope(
                        old(self)@,
                        group_id,
                        PrivateManagerView {
                            contexts: spec_scope(old(self)@, group_id).contexts.insert(
                                user_id,
                                ChatContextView {
                                    histories: spec_scope(
                                        old(self)@,
                                        group_id,
                                    ).contexts[user_id].histories.push(msg@),
                                    ..spec_scope(old(self)@, group_id).contexts[user_id]
                                },
                            ),
                            ..spec_scope(old(self)@, group_id)
                        },
                    ));
                }
            },
            Some(g) => {
                let mut pm = match self.group_contexts.remove(&g) {
                    Some(pm) => pm,
                    None => {
                        proof {
                            assert(false);
                        }
                        PrivateManager::new(GROUP_COOLDOWN_SECS)
                    },
                };
                pm.push_history(user_id, msg);
                self.group_contexts.insert(g, pm);
                proof {
                    assert(self@ =~= spec_set_scope(
                        old(self)@,
                        group_id,
                        PrivateManagerView {
                            contexts: spec_scope(old(self)@, group_id).contexts.insert(
                                user_id,
                                ChatContextView {
                                    histories: spec_scope(
                                        old(self)@,
                                        group_id,
                                    ).contexts[user_id].histories.push(msg@),
                                    ..spec_scope(old(self)@, group_id).contexts[user_id]
                                },
                            ),
                            ..spec_scope(old(self)@, group_id)
                        },
                    ));
                }
            },
        }
    }

    /// Rolls the pending user turn back after a failed remote call.
    pub fn pop_history(&mut self, group_id: Option<u64>, user_id: u64)
        requires
            spec_scope(old(self)@, group_id).contexts.contains_key(user_id),
        ensures
            final(self)@ == spec_set_scope(
                old(self)@,
                group_id,
                PrivateManagerView {
                    contexts: spec_scope(old(self)@, group_id).contexts.insert(
                        user_id,
                        ChatContextView {
                            histories: spec_pop_msg(
                                spec_scope(old(self)@, group_id).contexts[user_id].histories,
                            ),
                            ..spec_scope(old(self)@, group_id).contexts[user_id]
                        },
                    ),
                    ..spec_scope(old(self)@, group_id)
                },
            ),
    {
        match group_id {
            None => {
                self.private_context.pop_history(user_id);
                proof {
                    assert(self@ =~= spec_set_scope(
                        old(self)@,
                        group_id,
                        PrivateManagerView {
                            contexts: spec_scope(old(self)@, group_id).contexts.insert(
                                user_id,
                                ChatContextView {
                                    histories: spec_pop_msg(
                                        spec_scope(
                                            old(self)@,
                                            group_id,
                                        ).contexts[user_id].histories,
                                    ),
                                    ..spec_scope(old(self)@, group_id).contexts[user_id]
                                },
                            ),
                            ..spec_scope(old(self)@, group_id)
                        },
                    ));
                }
            },
            Some(g) => {
                let mut pm = match self.group_contexts.remove(&g) {
                    Some(pm) => pm,
                    None => {
                        proof {
                            assert(false);
                        }
                        PrivateManager::new(GROUP_COOLDOWN_SECS)
                    },
                };
                pm.pop_history(user_id);
                self.group_contexts.insert(g, pm);
                proof {
                    assert(self@ =~= spec_set_scope(
                        old(self)@,
                        group_id,
                        PrivateManagerView {
                            contexts: spec_scope(old(self)@, group_id).contexts.insert(
                                user_id,
                                ChatContextView {
                                    histories: spec_pop_msg(
                                        spec_scope(
                                            old(self)@,
                                            group_id,
                                        ).contexts[user_id].histories,
                                    ),
                                    ..spec_scope(old(self)@, group_id).contexts[user_id]
                                },
                            ),
                            ..spec_scope(old(self)@, group_id)
                        },
                    ));
                }
            },
        }
    }

    /// The deny-list store, for the caller to persist after admin mutations.
    pub fn history(&self) -> (r: &BotHistory)
        ensures
            r@ == self@.history,
    {
        &self.history
    }

    /// The configured admin identity.
    pub fn root_qq(&self) -> (r: u64)
        ensures
            r == self@.root_qq,
    {
        self.root_qq
    }
}

} // verus!

verus! {

/// One turn in flight at a time: after a user turn was admitted for an
/// identity, a second plain message from it, however much later, is rejected
/// with `OnceMessageATime` for as long as the turn is unresolved.
pub proof fn lemma_one_turn_at_a_time(
    m: PrivateManagerView,
    user_id: u64,
    ts1: u64,
    msg1: Seq<char>,
    ts2: u64,
    msg2: Seq<char>,
    r2: Result<bool, PrivateManagerError>,
)
    requires
        !m.deny_list.contains(user_id),
        !spec_is_cmd(msg1),
        !spec_is_cmd(msg2),
        !spec_ctx_or_fresh(m, user_id).wait_gpt_reply,
        spec_rate_admit(spec_ctx_or_fresh(m, user_id), m.interval, ts1),
        spec_pre_handle_result(spec_pre_handle(m, user_id, ts1, msg1), user_id, ts2, msg2, r2),
    ensures
        r2 matches Err(PrivateManagerError::OnceMessageATime),
{
}

/// Round-trip: `clean` right after a role switch changes nothing; both
/// leave the history at exactly the role's seed set.
pub proof fn lemma_clean_after_set_role(c: ChatContextView, role: BotRole)
    ensures
        spec_clean(spec_set_role(c, role)) == spec_set_role(c, role),
        spec_set_role(c, role).histories == spec_role_seed(role),
{
    assert(spec_clean(spec_set_role(c, role)) =~= spec_set_role(c, role));
}

/// Rate limiting: after a turn was admitted at `t` and resolved, a second
/// plain message one second before the cooldown elapses is rejected with
/// `QueryTooOften(1)`, and one at exactly `t + interval` is admitted.
pub proof fn lemma_rate_limit(
    m: PrivateManagerView,
    user_id: u64,
    t: u64,
    msg1: Seq<char>,
    msg2: Seq<char>,
    r2: Result<bool, PrivateManagerError>,
)
    requires
        1 <= m.interval,
        t + m.interval <= u64::MAX,
        !m.deny_list.contains(user_id),
        !spec_is_cmd(msg1),
        !spec_is_cmd(msg2),
        !spec_ctx_or_fresh(m, user_id).wait_gpt_reply,
        spec_rate_admit(spec_ctx_or_fresh(m, user_id), m.interval, t),
        ({
            let m1 = spec_pre_handle(m, user_id, t, msg1);
            let m2 = PrivateManagerView {
                contexts: m1.contexts.insert(
                    user_id,
                    ChatContextView { wait_gpt_reply: false, ..m1.contexts[user_id] },
                ),
                ..m1
            };
            spec_pre_handle_result(m2, user_id, (t + m.interval - 1) as u64, msg2, r2)
        }),
    ensures
        r2 matches Err(PrivateManagerError::QueryTooOften(w)) && w == 1,
        ({
            let m1 = spec_pre_handle(m, user_id, t, msg1);
            let m2 = PrivateManagerView {
                contexts: m1.contexts.insert(
                    user_id,
                    ChatContextView { wait_gpt_reply: false, ..m1.contexts[user_id] },
                ),
                ..m1
            };
            spec_pre_handle_result(
                m2,
                user_id,
                (t + m.interval) as u64,
                msg2,
                Ok::<bool, PrivateManagerError>(true),
            )
        }),
{
}

/// Long-idle auto-reset: a turn admitted 7201 seconds after the previous one
/// (cooldown satisfied) finds the history reseeded under the default role
/// before its user message is appended.
pub proof fn lemma_long_idle_reset(c: ChatContextView, interval: u64, t: u64, msg: Seq<char>)
    requires
        1 <= t,
        t + 7201 <= u64::MAX,
        interval <= 7201,
        c.last_ts == t,
        !c.wait_gpt_reply,
        !spec_is_cmd(msg),
    ensures
        ({
            let c2 = spec_handle_ctx(c, interval, (t + 7201) as u64, msg);
            &&& c2.histories == spec_role_seed(BotRole::Assistant).push(user_msg(msg))
            &&& c2.role == BotRole::Assistant
            &&& c2.wait_gpt_reply
            &&& c2.last_ts == t + 7201
        }),
{
}

/// Deny-list enforcement: a denied identity's plain message resolves to
/// `Ok(false)` and mutates nothing, and once the identity is allowed again
/// the same message is admitted.
pub proof fn lemma_deny_then_allow(m: PrivateManagerView, q: u64, ts: u64, msg: Seq<char>)
    requires
        !spec_is_cmd(msg),
        !m.contexts.contains_key(q),
        m.interval <= ts,
    ensures
        ({
            let md = PrivateManagerView { deny_list: m.deny_list.insert(q), ..m };
            let ma = PrivateManagerView { deny_list: md.deny_list.remove(q), ..md };
            &&& spec_pre_handle(md, q, ts, msg) == md
            &&& spec_pre_handle_result(md, q, ts, msg, Ok::<bool, PrivateManagerError>(false))
            &&& spec_pre_handle_result(ma, q, ts, msg, Ok::<bool, PrivateManagerError>(true))
        }),
{
}

/// Handling one identity's message never touches another identity's
/// context, the scope's deny list or its cooldown: turns of different
/// identities stay independent.
pub proof fn lemma_identity_isolation(
    m: PrivateManagerView,
    user_id: u64,
    ts: u64,
    msg: Seq<char>,
    other: u64,
)
    requires
        other != user_id,
    ensures
        spec_pre_handle(m, user_id, ts, msg).contexts.contains_key(other) == m.contexts.contains_key(
            other,
        ),
        m.contexts.contains_key(other) ==> spec_pre_handle(m, user_id, ts, msg).contexts[other]
            == m.contexts[other],
        spec_pre_handle(m, user_id, ts, msg).deny_list == m.deny_list,
        spec_pre_handle(m, user_id, ts, msg).interval == m.interval,
{
}

/// A command-prefixed message is dispatched without admission checks: it is
/// never rejected as busy or rate-limited, whatever state the sender's
/// context is in, and it never starts a remote call.
pub proof fn lemma_commands_bypass_admission(
    m: PrivateManagerView,
    user_id: u64,
    ts: u64,
    msg: Seq<char>,
    r: Result<bool, PrivateManagerError>,
)
    requires
        !m.deny_list.contains(user_id),
        spec_is_cmd(msg),
        spec_pre_handle_result(m, user_id, ts, msg, r),
    ensures
        r is Err,
        !(r matches Err(PrivateManagerError::OnceMessageATime)),
        !(r matches Err(PrivateManagerError::QueryTooOften(_))),
        !(r matches Err(PrivateManagerError::PermissionDeny)),
{
}

/// Rollback idempotence: dropping the last history entry right after an
/// admitted turn restores the history exactly as it was before the call —
/// provided the admission did not long-idle-reseed it first.
pub proof fn lemma_rollback_restores_history(
    c: ChatContextView,
    interval: u64,
    ts: u64,
    msg: Seq<char>,
)
    requires
        !spec_is_cmd(msg),
        !c.wait_gpt_reply,
        spec_rate_admit(c, interval, ts),
        !spec_long_idle(c, ts),
    ensures
        spec_pop_msg(spec_handle_ctx(c, interval, ts, msg).histories) == c.histories,
{
    let c2 = spec_handle_ctx(c, interval, ts, msg);
    assert(c2.histories == c.histories.push(user_msg(msg)));
    assert(spec_pop_msg(c2.histories) =~= c.histories);
}

} // verus!
