//! The shape of the completion service's request parameters and reply, as
//! plain values. Serializing a request and performing the call live outside
//! the library.

use vstd::prelude::*;
use crate::chat::message::MessageRole;

verus! {

/// A completion request, ready to post: body and endpoint.
#[derive(Debug)]
pub struct GptReqParam {
    pub body: String,
    pub url: String,
}

/// Token accounting attached to a completion reply.
#[derive(Debug)]
pub struct Usage {
    pub prompt_tokens: i64,
    pub completion_tokens: i64,
    pub total_tokens: i64,
}

/// One message of a completion reply.
#[derive(Debug)]
pub struct Message {
    pub role: MessageRole,
    pub content: String,
}

/// One choice of a completion reply.
#[derive(Debug)]
pub struct Choices {
    pub message: Message,
}

/// A completion reply.
#[derive(Debug)]
pub struct GptRecvResult {
    pub id: String,
    pub object: String,
    pub created: u64,
    pub model: String,
    pub choices: Vec<Choices>,
    pub usage: Usage,
}

} // verus!
