use vstd::prelude::*;
use crate::structures::gateway::OpCode;

verus! {

/// The op code of the gateway's hello message, also carried by heartbeats.
pub const HELLO: OpCode = 1;

/// The op code of the payload by which a shard identifies itself.
pub const IDENTITY_PAYLOAD: OpCode = 2;

} // verus!
