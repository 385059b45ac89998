//! Shards: the connections to the gateway, their heartbeats, and the
//! messages they send.

pub mod heartbeat;
pub mod payload;
pub mod shard;
