//! The newer session engine: one session per user, a status machine around
//! the remote completion call, and the model configurations it selects from.

pub mod gpt;
pub mod manager;
pub mod message;
pub mod model;
pub mod role;
pub mod session;

use vstd::prelude::*;

verus! {

/// The identity a session belongs to.
pub type UserId = u64;

} // verus!
