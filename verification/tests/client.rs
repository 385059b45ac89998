use iris::client::{create_shards, watch_shard, WatchAction};
use iris::sharding::shard::{Shard, ShardEvent, ShardStatus};
use iris::SHARD_WATCHER_INTERVAL;

fn shard_with(status: ShardStatus) -> Shard {
    let mut shard = Shard::new(0, "t".to_string());
    if status != ShardStatus::Disconnected {
        shard.handle(ShardEvent::ConnectRequested);
    }
    if status == ShardStatus::Connected {
        shard.handle(ShardEvent::IdentifySent);
    }
    assert_eq!(shard.get_status(), status);
    shard
}

#[test]
fn open_client_reconnects_unconnected_shards() {
    assert_eq!(watch_shard(false, &shard_with(ShardStatus::Disconnected)), WatchAction::Reconnect);
    assert_eq!(watch_shard(false, &shard_with(ShardStatus::Connecting)), WatchAction::Reconnect);
    assert_eq!(watch_shard(false, &shard_with(ShardStatus::Connected)), WatchAction::Leave);
}

#[test]
fn closed_client_closes_connected_shards() {
    assert_eq!(watch_shard(true, &shard_with(ShardStatus::Connected)), WatchAction::Close);
    assert_eq!(watch_shard(true, &shard_with(ShardStatus::Connecting)), WatchAction::Leave);
    assert_eq!(watch_shard(true, &shard_with(ShardStatus::Disconnected)), WatchAction::Leave);
}

#[test]
fn create_shards_numbers_them_from_zero() {
    let token = "tok".to_string();
    let shards = create_shards(3, &token);
    assert_eq!(shards.len(), 3);
    for (i, shard) in shards.iter().enumerate() {
        assert_eq!(shard.shard_id(), i as u64);
        assert_eq!(shard.get_token(), "tok");
        assert_eq!(shard.get_status(), ShardStatus::Disconnected);
    }
    assert!(create_shards(0, &token).is_empty());
}

#[test]
fn watcher_interval_is_half_a_second() {
    assert_eq!(SHARD_WATCHER_INTERVAL, 500);
}

#[test]
fn open_client_retries_failed_attempts() {
    let attempts: [&[ShardEvent]; 3] = [
        &[ShardEvent::ConnectRequested, ShardEvent::SocketFailed],
        &[ShardEvent::ConnectRequested, ShardEvent::SocketOpened, ShardEvent::HelloFailed],
        &[
            ShardEvent::ConnectRequested,
            ShardEvent::SocketOpened,
            ShardEvent::HelloReceived { heartbeat_interval: 1 },
            ShardEvent::IdentifyFailed,
        ],
    ];
    for events in attempts {
        let mut shard = Shard::new(0, "t".to_string());
        for e in events {
            shard.handle(*e);
        }
        assert_eq!(watch_shard(false, &shard), WatchAction::Reconnect);
    }
}
