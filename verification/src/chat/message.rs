//! One message of a session's conversation, stamped with the wall-clock time
//! it was built.

use vstd::prelude::*;

verus! {

/// Who a message speaks as.
#[derive(Clone, Copy, Debug, PartialEq, Eq, Structural)]
pub enum MessageRole {
    System,
    User,
    Assistant,
}

/// One role-tagged message, stamped with the milliseconds since the epoch at
/// which it was built.
#[derive(Debug)]
pub struct Message {
    pub role: MessageRole,
    pub content: String,
    pub timestamp: i64,
}

/// Relies on `bson::DateTime::now`, which reads the system clock; nothing is
/// promised of the value.
#[verifier::external_body]
pub(crate) fn now_timestamp_millis() -> i64 {
    bson::DateTime::now().timestamp_millis()
}

impl Message {
    /// A message stamped with the time of the call.
    pub fn new(role: MessageRole, content: String) -> (r: Self)
        ensures
            r.role == role,
            r.content@ == content@,
    {
        Self { role, content, timestamp: now_timestamp_millis() }
    }
}

} // verus!
