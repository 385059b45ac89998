use iris::sharding::shard::{
    ClosePlan, CloseObservation, FrameKind, ReceiveError, Shard, ShardAction, ShardEvent,
    ShardStatus, StopStep,
};
use iris::structures::gateway::op_codes::IDENTITY_PAYLOAD;
use iris::LIB_NAME;

fn connected_shard() -> Shard {
    let mut shard = Shard::new(0, "token".to_string());
    shard.handle(ShardEvent::ConnectRequested);
    shard.handle(ShardEvent::SocketOpened);
    shard.handle(ShardEvent::HelloReceived { heartbeat_interval: 41250 });
    shard.handle(ShardEvent::IdentifySent);
    shard
}

#[test]
fn status_defaults_to_disconnected() {
    assert_eq!(ShardStatus::default(), ShardStatus::Disconnected);
}

#[test]
fn new_shard_is_disconnected() {
    let shard = Shard::new(7, "abc".to_string());
    assert_eq!(shard.shard_id(), 7);
    assert_eq!(shard.get_token(), "abc");
    assert_eq!(shard.get_status(), ShardStatus::Disconnected);
    assert!(!shard.is_connected());
}

#[test]
fn full_connection_reaches_connected() {
    let mut shard = Shard::new(1, "t".to_string());
    assert_eq!(shard.handle(ShardEvent::ConnectRequested), ShardAction::OpenSocket);
    assert_eq!(shard.get_status(), ShardStatus::Connecting);
    assert_eq!(shard.handle(ShardEvent::SocketOpened), ShardAction::AwaitHello);
    assert_eq!(shard.get_status(), ShardStatus::Connecting);
    assert_eq!(
        shard.handle(ShardEvent::HelloReceived { heartbeat_interval: 41250 }),
        ShardAction::StartHeartbeatAndIdentify { heartbeat_interval: 41250 }
    );
    assert_eq!(shard.get_status(), ShardStatus::Connecting);
    assert_eq!(shard.handle(ShardEvent::IdentifySent), ShardAction::Done);
    assert_eq!(shard.get_status(), ShardStatus::Connected);
    assert!(shard.is_connected());
    assert_eq!(shard.shard_id(), 1);
}

#[test]
fn failed_socket_leaves_shard_connecting() {
    let mut shard = Shard::new(0, "t".to_string());
    shard.handle(ShardEvent::ConnectRequested);
    assert_eq!(shard.handle(ShardEvent::SocketFailed), ShardAction::Abandon);
    assert_eq!(shard.get_status(), ShardStatus::Connecting);
}

#[test]
fn failed_hello_disconnects() {
    let mut shard = Shard::new(0, "t".to_string());
    shard.handle(ShardEvent::ConnectRequested);
    shard.handle(ShardEvent::SocketOpened);
    assert_eq!(shard.handle(ShardEvent::HelloFailed), ShardAction::CloseSocket);
    assert_eq!(shard.get_status(), ShardStatus::Disconnected);
}

#[test]
fn failed_identify_disconnects() {
    let mut shard = Shard::new(0, "t".to_string());
    shard.handle(ShardEvent::ConnectRequested);
    shard.handle(ShardEvent::SocketOpened);
    shard.handle(ShardEvent::HelloReceived { heartbeat_interval: 10 });
    assert_eq!(shard.handle(ShardEvent::IdentifyFailed), ShardAction::CloseShardAndSocket);
    assert_eq!(shard.get_status(), ShardStatus::Disconnected);
}

#[test]
fn failed_send_disconnects() {
    let mut shard = connected_shard();
    assert_eq!(shard.handle(ShardEvent::SendFailed), ShardAction::StopSending);
    assert_eq!(shard.get_status(), ShardStatus::Disconnected);
}

#[test]
fn receive_errors_disconnect_but_bad_encoding() {
    let lost = [
        ReceiveError::ConnectionClosed,
        ReceiveError::AlreadyClosed,
        ReceiveError::Io,
        ReceiveError::Tls,
        ReceiveError::Capacity,
        ReceiveError::WriteBufferFull,
        ReceiveError::Protocol,
    ];
    for e in lost {
        let mut shard = connected_shard();
        assert_eq!(shard.handle(ShardEvent::ReceiveFailed(e)), ShardAction::StopReceiving);
        assert_eq!(shard.get_status(), ShardStatus::Disconnected);
    }
    let mut shard = connected_shard();
    assert_eq!(
        shard.handle(ShardEvent::ReceiveFailed(ReceiveError::Utf8)),
        ShardAction::StopReceiving
    );
    assert_eq!(shard.get_status(), ShardStatus::Connected);
}

#[test]
fn received_frames() {
    let mut shard = connected_shard();
    assert_eq!(shard.handle(ShardEvent::Received(FrameKind::Text)), ShardAction::Dispatch);
    assert_eq!(shard.handle(ShardEvent::Received(FrameKind::Ping)), ShardAction::KeepReceiving);
    assert_eq!(shard.handle(ShardEvent::Received(FrameKind::Pong)), ShardAction::KeepReceiving);
    assert_eq!(shard.get_status(), ShardStatus::Connected);
    assert_eq!(shard.handle(ShardEvent::Received(FrameKind::Close)), ShardAction::KeepReceiving);
    assert_eq!(shard.get_status(), ShardStatus::Disconnected);
}

#[test]
fn no_connection_without_identify() {
    let mut shard = Shard::new(0, "t".to_string());
    let events = [
        ShardEvent::ConnectRequested,
        ShardEvent::SocketOpened,
        ShardEvent::HelloReceived { heartbeat_interval: 5 },
        ShardEvent::Received(FrameKind::Text),
        ShardEvent::Received(FrameKind::Ping),
    ];
    for e in events {
        shard.handle(e);
        assert!(!shard.is_connected());
    }
    shard.handle(ShardEvent::IdentifySent);
    assert!(shard.is_connected());
}

#[test]
fn identity_payload_message_carries_token_and_properties() {
    let shard = Shard::new(3, "secret-token".to_string());
    let msg = shard.create_identity_payload_message(513, "linux");
    assert_eq!(msg.token, "secret-token");
    assert_eq!(msg.intents, 513);
    assert_eq!(msg.properties.os, "linux");
    assert_eq!(msg.properties.browser, LIB_NAME);
    assert_eq!(msg.properties.device, "IrisClient.rs");
}

#[test]
fn encapsulate_payload_frames_op_and_data() {
    let msg = Shard::encapsulate_payload(IDENTITY_PAYLOAD, "{\"intents\":1}");
    assert_eq!(msg, "{\"d\":{\"intents\":1},\"op\":2}");
    let msg = Shard::encapsulate_payload(65535, "[]");
    assert_eq!(msg, "{\"d\":[],\"op\":65535}");
}

#[test]
fn encapsulate_payload_matches_serde_json() {
    let mut map = serde_json::Map::new();
    map.insert("op".to_string(), serde_json::Value::from(IDENTITY_PAYLOAD));
    map.insert("d".to_string(), serde_json::Value::from(vec![1, 2, 3]));
    let expected = serde_json::Value::Object(map).to_string();
    assert_eq!(Shard::encapsulate_payload(IDENTITY_PAYLOAD, "[1,2,3]"), expected);
}

#[test]
fn close_plan_stops_what_runs() {
    let plan = Shard::close_plan(CloseObservation {
        heartbeat: Some((false, false)),
        tasks_finished: Some((false, true)),
        message_channel_closed: Some(false),
    });
    assert_eq!(
        plan,
        ClosePlan {
            stop_heartbeat: true,
            stop_sender_task: true,
            stop_receiver_task: false,
            close_message_channel: true,
        }
    );
}

#[test]
fn close_plan_leaves_closed_parts_alone() {
    let plan = Shard::close_plan(CloseObservation {
        heartbeat: Some((true, true)),
        tasks_finished: Some((true, false)),
        message_channel_closed: Some(true),
    });
    assert_eq!(
        plan,
        ClosePlan {
            stop_heartbeat: false,
            stop_sender_task: false,
            stop_receiver_task: true,
            close_message_channel: false,
        }
    );
    let plan = Shard::close_plan(CloseObservation {
        heartbeat: Some((true, false)),
        tasks_finished: None,
        message_channel_closed: None,
    });
    assert_eq!(
        plan,
        ClosePlan {
            stop_heartbeat: true,
            stop_sender_task: false,
            stop_receiver_task: false,
            close_message_channel: false,
        }
    );
}

#[test]
fn stop_signal_outcomes() {
    assert_eq!(Shard::after_stop_signal(true), StopStep::CloseSignalChannel);
    assert_eq!(Shard::after_stop_signal(false), StopStep::AbortTask);
}

#[test]
fn unhandled_events() {
    assert!(!ShardEvent::ReceiveFailed(ReceiveError::AttackAttempt).is_handled());
    assert!(!ShardEvent::ReceiveFailed(ReceiveError::Other).is_handled());
    assert!(!ShardEvent::Received(FrameKind::Other).is_handled());
    assert!(ShardEvent::ReceiveFailed(ReceiveError::Utf8).is_handled());
    assert!(ShardEvent::Received(FrameKind::Close).is_handled());
    assert!(ShardEvent::IdentifySent.is_handled());
}
