use vstd::prelude::*;
use crate::structures::user::User;

verus! {

/// The payload of the READY event, which the gateway sends once a shard has
/// identified itself.
#[derive(Clone, Debug, PartialEq, Eq, PartialOrd, Ord)]
pub struct ReadyEvent {
    /// The API version used.
    pub api_version: u8,
    /// The current logged-in user.
    pub user: User,
    /// The session ID, used for resuming connections.
    pub session_id: String,
    /// The gateway URL for resuming connections.
    pub resume_gateway_url: String,
    /// Shard information associated with this session, if sent when identifying.
    pub shard: Option<Vec<i64>>,
}

} // verus!
