//! What a bot does on the gateway's events.

use vstd::prelude::*;
use crate::sharding::shard::ShardID;
use crate::structures::events::ready::ReadyEvent;

verus! {

/// What an event handler is told along with an event: the pool of shards, of
/// the type `Pool` in which the runtime keeps them, and the shard that
/// received the event.
pub struct Context<Pool> {
    pub shard_pool: Pool,
    pub shard_id: ShardID,
}

/// What a bot does on the gateway's events. Each event is ignored unless the
/// bot says otherwise.
pub trait EventHandler<Pool>: Send + Sync {
    /// The shard `ctx.shard_id` is ready.
    fn ready(&self, _ctx: Context<Pool>, _d: ReadyEvent) {
    }
}

} // verus!
