//! The payloads of Discord's gateway: what it sends, and what a shard
//! answers.

pub mod op_codes;

use vstd::prelude::*;

verus! {

/// A gateway op code.
pub type OpCode = u16;

/// Any JSON value, as `serde_json` holds it.
#[verifier::external_type_specification]
#[verifier::external_body]
pub struct ExJsonValue(serde_json::Value);

/// The name of the event that the gateway sends once a shard is ready.
pub const READY_EVENT_NAME: &'static str = "READY";

/// What a gateway message is about, as told by its event name.
#[derive(Clone, Copy, Debug, PartialEq, Eq, Structural)]
pub enum GatewayEvent {
    /// The READY event.
    Ready,
    /// An event that the client does not handle.
    Unknown,
    /// A message that names no event.
    Unnamed,
}

/// The payload structure, used every time the gateway talks to the client
/// over the websocket.
#[derive(Debug)]
pub struct GatewayResponse {
    /// The gateway op code.
    pub op: OpCode,
    /// The event data, which can be any JSON value.
    pub data: serde_json::Value,
    /// The sequence number, if any.
    pub sequence_number: Option<i32>,
    /// The event name, if any.
    pub name: Option<String>,
}

/// The event that a message with the given name carries.
pub open spec fn event_of(name: Option<Seq<char>>) -> GatewayEvent {
    match name {
        None => GatewayEvent::Unnamed,
        Some(n) => if n == READY_EVENT_NAME@ {
            GatewayEvent::Ready
        } else {
            GatewayEvent::Unknown
        },
    }
}

/// A message is the READY event exactly when its name is `READY`, is
/// unnamed exactly when it has no name, and is unknown otherwise.
pub proof fn lemma_event_of(name: Option<Seq<char>>)
    ensures
        event_of(name) == GatewayEvent::Ready <==> name == Some(seq!['R', 'E', 'A', 'D', 'Y']),
        event_of(name) == GatewayEvent::Unnamed <==> name is None,
        event_of(name) == GatewayEvent::Unknown <==> (name is Some && name != Some(
            seq!['R', 'E', 'A', 'D', 'Y'],
        )),
{
    reveal_strlit("READY");
    assert(READY_EVENT_NAME@ =~= seq!['R', 'E', 'A', 'D', 'Y']);
}

/// The view of an optional string.
pub open spec fn opt_string_view(s: Option<String>) -> Option<Seq<char>> {
    match s {
        None => None,
        Some(t) => Some(t@),
    }
}

impl GatewayResponse {
    /// Tells which event the message carries, by its name.
    pub fn event_kind(&self) -> (kind: GatewayEvent)
        ensures
            kind == event_of(opt_string_view(self.name)),
    {
        match &self.name {
            None => GatewayEvent::Unnamed,
            Some(n) => {
                let ready = String::from_str(READY_EVENT_NAME);
                if *n == ready {
                    GatewayEvent::Ready
                } else {
                    GatewayEvent::Unknown
                }
            },
        }
    }
}

/// The information of Get Gateway Bot, plus metadata that helps large or
/// sharded bots.
#[derive(Clone, Debug)]
pub struct BotGatewayEndpoint {
    /// The URL that can be used to connect to the gateway.
    pub url: String,
    /// The recommended number of shards to use when connecting.
    pub shards: u64,
    /// The session limits.
    pub session_start_limit: SessionStartLimit,
}

/// Information about the session and its limits.
#[derive(Clone, Copy, Debug, PartialEq, Eq, Structural)]
pub struct SessionStartLimit {
    /// The total number of session starts the current user is allowed.
    pub total: u64,
    /// The remaining number of session starts the current user is allowed.
    pub remaining: u64,
    /// The number of milliseconds after which the limit resets.
    pub reset_after: u128,
    /// The number of identify requests allowed per 5 seconds.
    pub max_concurrency: u64,
}

/// The information that the gateway gives at the connection.
#[derive(Clone, Copy, Debug, PartialEq, Eq, Structural)]
pub struct HelloWsMessage {
    /// The interval, in milliseconds, between two heartbeats.
    pub heartbeat_interval: u64,
}

/// The properties by which the application identifies itself.
#[derive(Clone, Debug)]
pub struct IdentityProperties {
    pub os: String,
    pub browser: String,
    pub device: String,
}

/// The message by which a shard identifies the application when it starts.
#[derive(Clone, Debug)]
pub struct IdentityGatewayMessage {
    pub token: String,
    pub intents: i64,
    pub properties: IdentityProperties,
}

} // verus!
