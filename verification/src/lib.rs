//! A Discord gateway client: the data it exchanges with the gateway, the
//! rules by which a shard connects, beats and closes, and the framing of the
//! messages it sends.

pub mod cache;
pub mod client;
pub mod events;
pub mod http;
pub mod sharding;
pub mod structures;

use vstd::prelude::*;

verus! {

/// The base URL of Discord's REST API.
pub const API_URL: &'static str = "https://discord.com/api/v10/";

/// The name under which the library identifies itself to the gateway.
pub const LIB_NAME: &'static str = "IrisClient.rs";

/// The interval, in milliseconds, between two checkups of the shards.
pub const SHARD_WATCHER_INTERVAL: u64 = 500;

} // verus!

