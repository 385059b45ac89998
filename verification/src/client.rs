//! The client's watch over its shards: which shards it creates, and what it
//! does to each shard at each checkup.

use vstd::prelude::*;
use crate::sharding::shard::{
    lemma_connected_only_after_identify, next_status, status_after, Shard, ShardEvent, ShardID,
    ShardStatus,
};

verus! {

/// What the watcher does to a shard at a checkup.
#[derive(Clone, Copy, Debug, PartialEq, Eq, Structural)]
pub enum WatchAction {
    /// Close the shard, then connect it again.
    Reconnect,
    /// Close the shard.
    Close,
    /// Leave the shard as it is.
    Leave,
}

/// What the watcher does to a shard with `status`, while the client is
/// closed or not.
pub open spec fn watch_result(client_closed: bool, status: ShardStatus) -> WatchAction {
    if !client_closed && status != ShardStatus::Connected {
        WatchAction::Reconnect
    } else if client_closed && status == ShardStatus::Connected {
        WatchAction::Close
    } else {
        WatchAction::Leave
    }
}

/// Decides what the watcher does to `shard`: while the client is open, a
/// shard that is not connected is connected again; once the client is
/// closed, a connected shard is closed.
pub fn watch_shard(client_closed: bool, shard: &Shard) -> (action: WatchAction)
    ensures
        action == watch_result(client_closed, shard.status()),
{
    let is_connected = shard.is_connected();
    if !client_closed && !is_connected {
        WatchAction::Reconnect
    } else if client_closed && is_connected {
        WatchAction::Close
    } else {
        WatchAction::Leave
    }
}

/// While the client is open, the watcher never closes a shard, leaves alone
/// only connected shards, and each shard it reconnects is connecting once
/// its connection is requested; once the client is closed, it never
/// reconnects a shard.
pub proof fn lemma_watch_keeps_open_client_connecting(status: ShardStatus)
    ensures
        watch_result(false, status) != WatchAction::Close,
        watch_result(false, status) == WatchAction::Leave ==> status == ShardStatus::Connected,
        watch_result(false, status) == WatchAction::Reconnect ==> next_status(
            status,
            ShardEvent::ConnectRequested,
        ) == ShardStatus::Connecting,
        watch_result(true, status) != WatchAction::Reconnect,
{
}

/// The watcher reconnects exactly the shards that are not connected while
/// the client is open, closes exactly the connected shards once it is
/// closed, and leaves every other shard alone.
pub proof fn lemma_watch_rules(client_closed: bool, status: ShardStatus)
    ensures
        watch_result(client_closed, status) == WatchAction::Reconnect <==> (!client_closed
            && status != ShardStatus::Connected),
        watch_result(client_closed, status) == WatchAction::Close <==> (client_closed && status
            == ShardStatus::Connected),
        watch_result(client_closed, status) == WatchAction::Leave <==> (client_closed == (status
            != ShardStatus::Connected)),
{
}

/// While the client is open, a shard that was not connected and whose
/// identity payload was not sent since is reconnected at the next checkup,
/// whatever else happened to it.
pub proof fn lemma_open_client_retries_unidentified_shards(
    status: ShardStatus,
    events: Seq<ShardEvent>,
)
    requires
        status != ShardStatus::Connected,
        !events.contains(ShardEvent::IdentifySent),
    ensures
        watch_result(false, status_after(status, events)) == WatchAction::Reconnect,
{
    if status_after(status, events) == ShardStatus::Connected {
        lemma_connected_only_after_identify(status, events);
    }
}

/// Creates the shards `0 .. count`, each disconnected and holding `token`.
pub fn create_shards(count: u64, token: &String) -> (shards: Vec<Shard>)
    ensures
        shards.len() == count,
        forall|i: int|
            0 <= i < count ==> {
                &&& (#[trigger] shards@[i]).id() == i
                &&& shards@[i].token_view() == token@
                &&& shards@[i].status() == ShardStatus::Disconnected
            },
{
    let mut shards: Vec<Shard> = Vec::new();
    let mut i: u64 = 0;
    while i < count
        invariant
            i <= count,
            shards.len() == i,
            forall|j: int|
                0 <= j < i ==> {
                    &&& (#[trigger] shards@[j]).id() == j
                    &&& shards@[j].token_view() == token@
                    &&& shards@[j].status() == ShardStatus::Disconnected
                },
        decreases count - i,
    {
        shards.push(Shard::new(i as ShardID, token.clone()));
        i = i + 1;
    }
    shards
}

} // verus!
