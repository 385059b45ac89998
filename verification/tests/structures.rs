use iris::cache::CacheInstance;
use iris::structures::flags::Flags;
use iris::structures::gateway::{GatewayEvent, GatewayResponse, HelloWsMessage, SessionStartLimit};
use iris::structures::snowflake::Snowflake;

fn response(name: Option<&str>) -> GatewayResponse {
    GatewayResponse {
        op: 0,
        data: serde_json::Value::Null,
        sequence_number: Some(1),
        name: name.map(|n| n.to_string()),
    }
}

#[test]
fn snowflake_keeps_its_id() {
    let id = Snowflake::new("80351110224678912".to_string());
    assert_eq!(id.0, "80351110224678912");
    assert_eq!(id, Snowflake("80351110224678912".to_string()));
}

#[test]
fn ready_event_is_recognised() {
    assert_eq!(response(Some("READY")).event_kind(), GatewayEvent::Ready);
}

#[test]
fn other_events_are_unknown() {
    assert_eq!(response(Some("GUILD_CREATE")).event_kind(), GatewayEvent::Unknown);
    assert_eq!(response(Some("ready")).event_kind(), GatewayEvent::Unknown);
    assert_eq!(response(Some("")).event_kind(), GatewayEvent::Unknown);
}

#[test]
fn unnamed_messages() {
    assert_eq!(response(None).event_kind(), GatewayEvent::Unnamed);
}

#[test]
fn plain_values() {
    assert_eq!(Flags(4), Flags(4));
    assert_eq!(HelloWsMessage { heartbeat_interval: 41250 }.heartbeat_interval, 41250);
    let limit = SessionStartLimit { total: 1000, remaining: 999, reset_after: 14400000, max_concurrency: 1 };
    assert_eq!(limit.remaining, 999);
    assert_eq!(CacheInstance::default(), CacheInstance {});
}

#[test]
fn snowflakes_compare_as_their_texts() {
    let nine = Snowflake::new("9".to_string());
    let ten = Snowflake::new("10".to_string());
    assert_eq!(nine, Snowflake::new("9".to_string()));
    assert_ne!(nine, ten);
    assert!(nine > ten);
    assert_eq!(nine.cmp(&ten), "9".cmp("10"));
}
