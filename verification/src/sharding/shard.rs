//! A shard: one connection to the gateway. Its status moves with what
//! happens on the connection, and each event tells the runtime what to do
//! next.

use vstd::prelude::*;
use crate::LIB_NAME;
use crate::sharding::payload::{frame, framed};
use crate::structures::gateway::{IdentityGatewayMessage, IdentityProperties, OpCode};

verus! {

/// The ID of a shard.
pub type ShardID = u64;

/// The status of a shard.
#[derive(Clone, Copy, Debug, PartialEq, Eq, Structural, PartialOrd, Ord, Hash)]
pub enum ShardStatus {
    Disconnected,
    Connecting,
    Connected,
}

impl Default for ShardStatus {
    /// A shard starts disconnected.
    fn default() -> (status: Self)
        ensures
            status == ShardStatus::Disconnected,
    {
        ShardStatus::Disconnected
    }
}

/// Why the websocket failed to deliver a message, as `tungstenite` reports it.
#[derive(Clone, Copy, Debug, PartialEq, Eq, Structural)]
pub enum ReceiveError {
    ConnectionClosed,
    AlreadyClosed,
    Io,
    Tls,
    Capacity,
    WriteBufferFull,
    Protocol,
    /// A text message that is not valid UTF-8.
    Utf8,
    /// The peer attempted an attack on the connection.
    AttackAttempt,
    /// Any other error.
    Other,
}

/// What a shard can receive from the websocket.
#[derive(Clone, Copy, Debug, PartialEq, Eq, Structural)]
pub enum FrameKind {
    Text,
    Ping,
    Pong,
    Close,
    /// A binary or a raw frame.
    Other,
}

/// What happens to a shard, from its connection to its end.
#[derive(Clone, Copy, Debug, PartialEq, Eq, Structural)]
pub enum ShardEvent {
    /// The shard is asked to connect.
    ConnectRequested,
    /// The websocket could not be opened.
    SocketFailed,
    /// The websocket is open.
    SocketOpened,
    /// The first message could not be read, the stream ended, or it was no
    /// valid hello.
    HelloFailed,
    /// The gateway said hello, with the heartbeat interval in milliseconds.
    HelloReceived { heartbeat_interval: u64 },
    /// The identity payload could not be sent.
    IdentifyFailed,
    /// The identity payload was sent, and the tasks that send and receive
    /// messages were started.
    IdentifySent,
    /// The sender task could not write a message to the websocket.
    SendFailed,
    /// The receiver task read an error from the websocket.
    ReceiveFailed(ReceiveError),
    /// The receiver task read a message.
    Received(FrameKind),
}

/// What the runtime does after an event.
#[derive(Clone, Copy, Debug, PartialEq, Eq, Structural)]
pub enum ShardAction {
    /// Open the websocket.
    OpenSocket,
    /// Give up this connection attempt.
    Abandon,
    /// Read the gateway's hello.
    AwaitHello,
    /// Close the websocket and give up.
    CloseSocket,
    /// Start a heartbeat with this interval, then send the identity payload.
    StartHeartbeatAndIdentify { heartbeat_interval: u64 },
    /// Close the shard, then its websocket, and give up.
    CloseShardAndSocket,
    /// Nothing more to do to connect: the connection is up.
    Done,
    /// End the sender task.
    StopSending,
    /// End the receiver task.
    StopReceiving,
    /// Hand the text message to the event dispatch, then read on.
    Dispatch,
    /// Read on.
    KeepReceiving,
}

/// Whether the runtime can carry on after `event`: an attack on the websocket,
/// an unexpected websocket error, and a frame that is neither text, ping,
/// pong nor close stop it.
pub open spec fn is_handled(event: ShardEvent) -> bool {
    match event {
        ShardEvent::ReceiveFailed(e) => e != ReceiveError::AttackAttempt && e != ReceiveError::Other,
        ShardEvent::Received(k) => k != FrameKind::Other,
        _ => true,
    }
}

impl ShardEvent {
    /// Whether the runtime can carry on after this event, which it tests
    /// before it hands the event to a shard.
    pub fn is_handled(&self) -> (b: bool)
        ensures
            b == is_handled(*self),
    {
        match self {
            ShardEvent::ReceiveFailed(e) => match e {
                ReceiveError::AttackAttempt => false,
                ReceiveError::Other => false,
                _ => true,
            },
            ShardEvent::Received(k) => match k {
                FrameKind::Other => false,
                _ => true,
            },
            _ => true,
        }
    }
}

/// The status of a shard after `event`.
pub open spec fn next_status(status: ShardStatus, event: ShardEvent) -> ShardStatus {
    match event {
        ShardEvent::ConnectRequested => ShardStatus::Connecting,
        ShardEvent::HelloFailed => ShardStatus::Disconnected,
        ShardEvent::IdentifyFailed => ShardStatus::Disconnected,
        ShardEvent::IdentifySent => ShardStatus::Connected,
        ShardEvent::SendFailed => ShardStatus::Disconnected,
        ShardEvent::ReceiveFailed(e) => if e == ReceiveError::Utf8 {
            status
        } else {
            ShardStatus::Disconnected
        },
        ShardEvent::Received(k) => if k == FrameKind::Close {
            ShardStatus::Disconnected
        } else {
            status
        },
        _ => status,
    }
}

/// What the runtime does after `event`.
pub open spec fn action_after(event: ShardEvent) -> ShardAction {
    match event {
        ShardEvent::ConnectRequested => ShardAction::OpenSocket,
        ShardEvent::SocketFailed => ShardAction::Abandon,
        ShardEvent::SocketOpened => ShardAction::AwaitHello,
        ShardEvent::HelloFailed => ShardAction::CloseSocket,
        ShardEvent::HelloReceived { heartbeat_interval } =>
            ShardAction::StartHeartbeatAndIdentify { heartbeat_interval },
        ShardEvent::IdentifyFailed => ShardAction::CloseShardAndSocket,
        ShardEvent::IdentifySent => ShardAction::Done,
        ShardEvent::SendFailed => ShardAction::StopSending,
        ShardEvent::ReceiveFailed(_) => ShardAction::StopReceiving,
        ShardEvent::Received(k) => if k == FrameKind::Text {
            ShardAction::Dispatch
        } else {
            ShardAction::KeepReceiving
        },
    }
}

/// The status of a shard after the events `events`, in order.
pub open spec fn status_after(status: ShardStatus, events: Seq<ShardEvent>) -> ShardStatus
    decreases events.len(),
{
    if events.len() == 0 {
        status
    } else {
        next_status(status_after(status, events.drop_last()), events.last())
    }
}

/// A shard, as far as the rules of its connection go: its ID, the token by
/// which it identifies the application, and its status.
pub struct Shard {
    shard_id: ShardID,
    token: String,
    status: ShardStatus,
}

impl Shard {
    /// The ID of the shard.
    pub closed spec fn id(&self) -> ShardID {
        self.shard_id
    }

    /// The token by which the shard identifies the application.
    pub closed spec fn token_view(&self) -> Seq<char> {
        self.token@
    }

    /// The status of the shard.
    pub closed spec fn status(&self) -> ShardStatus {
        self.status
    }

    /// A disconnected shard.
    pub fn new(shard_id: ShardID, token: String) -> (shard: Self)
        ensures
            shard.id() == shard_id,
            shard.token_view() == token@,
            shard.status() == ShardStatus::Disconnected,
    {
        Shard { shard_id, token, status: ShardStatus::Disconnected }
    }

    /// The ID of the shard.
    pub fn shard_id(&self) -> (id: ShardID)
        ensures
            id == self.id(),
    {
        self.shard_id
    }

    /// The status of the shard.
    pub fn get_status(&self) -> (status: ShardStatus)
        ensures
            status == self.status(),
    {
        self.status
    }

    /// Whether the shard is connected.
    pub fn is_connected(&self) -> (b: bool)
        ensures
            b <==> self.status() == ShardStatus::Connected,
    {
        self.status == ShardStatus::Connected
    }

    /// The token by which the shard identifies the application.
    pub fn get_token(&self) -> (token: &String)
        ensures
            token@ == self.token_view(),
    {
        &self.token
    }

    /// Moves the shard on `event`, and says what the runtime does next.
    pub fn handle(&mut self, event: ShardEvent) -> (action: ShardAction)
        requires
            is_handled(event),
        ensures
            final(self).id() == old(self).id(),
            final(self).token_view() == old(self).token_view(),
            final(self).status() == next_status(old(self).status(), event),
            action == action_after(event),
            (event matches ShardEvent::HelloReceived { heartbeat_interval } ==> action
                == (ShardAction::StartHeartbeatAndIdentify { heartbeat_interval })),
    {
        match event {
            ShardEvent::ConnectRequested => {
                self.status = ShardStatus::Connecting;
                ShardAction::OpenSocket
            },
            ShardEvent::SocketFailed => ShardAction::Abandon,
            ShardEvent::SocketOpened => ShardAction::AwaitHello,
            ShardEvent::HelloFailed => {
                self.status = ShardStatus::Disconnected;
                ShardAction::CloseSocket
            },
            ShardEvent::HelloReceived { heartbeat_interval } => {
                ShardAction::StartHeartbeatAndIdentify { heartbeat_interval }
            },
            ShardEvent::IdentifyFailed => {
                self.status = ShardStatus::Disconnected;
                ShardAction::CloseShardAndSocket
            },
            ShardEvent::IdentifySent => {
                self.status = ShardStatus::Connected;
                ShardAction::Done
            },
            ShardEvent::SendFailed => {
                self.status = ShardStatus::Disconnected;
                ShardAction::StopSending
            },
            ShardEvent::ReceiveFailed(e) => {
                match e {
                    ReceiveError::Utf8 => {},
                    _ => {
                        self.status = ShardStatus::Disconnected;
                    },
                }
                ShardAction::StopReceiving
            },
            ShardEvent::Received(k) => {
                match k {
                    FrameKind::Text => ShardAction::Dispatch,
                    FrameKind::Close => {
                        self.status = ShardStatus::Disconnected;
                        ShardAction::KeepReceiving
                    },
                    _ => ShardAction::KeepReceiving,
                }
            },
        }
    }

    /// Frames `data`, the JSON text of a payload, as a message with op code
    /// `op_code`.
    pub fn encapsulate_payload(op_code: OpCode, data: &str) -> (msg: String)
        ensures
            msg@ == framed(op_code, data@),
    {
        frame(op_code, data)
    }

    /// The identity payload of the shard: its token, the intents, and the
    /// properties of the application, which runs on the system `os`.
    pub fn create_identity_payload_message(&self, intents: i64, os: &str) -> (msg:
        IdentityGatewayMessage)
        ensures
            msg.token@ == self.token_view(),
            msg.intents == intents,
            msg.properties.os@ == os@,
            msg.properties.browser@ == LIB_NAME@,
            msg.properties.device@ == LIB_NAME@,
    {
        IdentityGatewayMessage {
            intents,
            token: self.token.clone(),
            properties: IdentityProperties {
                os: String::from_str(os),
                browser: String::from_str(LIB_NAME),
                device: String::from_str(LIB_NAME),
            },
        }
    }
}

/// What the runtime sees of a shard's parts when it closes the shard.
#[derive(Clone, Copy, Debug, PartialEq, Eq)]
pub struct CloseObservation {
    /// For a heartbeat session: whether its stop channel is closed, and
    /// whether its task has finished.
    pub heartbeat: Option<(bool, bool)>,
    /// For the sender and receiver tasks: whether each has finished.
    pub tasks_finished: Option<(bool, bool)>,
    /// For the channel of messages to send: whether it is closed.
    pub message_channel_closed: Option<bool>,
}

/// What closing a shard does.
#[derive(Clone, Copy, Debug, PartialEq, Eq, Structural)]
pub struct ClosePlan {
    /// Stop the heartbeat session.
    pub stop_heartbeat: bool,
    /// Signal the sender task to stop.
    pub stop_sender_task: bool,
    /// Signal the receiver task to stop.
    pub stop_receiver_task: bool,
    /// Close the channel of messages to send.
    pub close_message_channel: bool,
}

/// What follows the stop signal sent to a task.
#[derive(Clone, Copy, Debug, PartialEq, Eq, Structural)]
pub enum StopStep {
    /// The signal went through: close the signal channel.
    CloseSignalChannel,
    /// The signal could not be sent: abort the task.
    AbortTask,
}

/// Whether a heartbeat session is closed: its stop channel is closed and its
/// task has finished.
pub open spec fn heartbeat_closed(stop_channel_closed: bool, task_finished: bool) -> bool {
    stop_channel_closed && task_finished
}

impl Shard {
    /// Plans the closing of a shard: stop a heartbeat session that is not
    /// closed, signal each task that has not finished, and close the channel
    /// of messages if it is open. What is absent, closed or finished is left
    /// alone.
    pub fn close_plan(seen: CloseObservation) -> (plan: ClosePlan)
        ensures
            plan.stop_heartbeat <==> (match seen.heartbeat {
                Some((closed, finished)) => !heartbeat_closed(closed, finished),
                None => false,
            }),
            plan.stop_sender_task <==> (seen.tasks_finished matches Some((s, _)) && !s),
            plan.stop_receiver_task <==> (seen.tasks_finished matches Some((_, r)) && !r),
            plan.close_message_channel <==> (seen.message_channel_closed == Some(false)),
    {
        let stop_heartbeat = match seen.heartbeat {
            Some((closed, finished)) => !(closed && finished),
            None => false,
        };
        let (stop_sender_task, stop_receiver_task) = match seen.tasks_finished {
            Some((s, r)) => (!s, !r),
            None => (false, false),
        };
        let close_message_channel = match seen.message_channel_closed {
            Some(closed) => !closed,
            None => false,
        };
        ClosePlan { stop_heartbeat, stop_sender_task, stop_receiver_task, close_message_channel }
    }

    /// What follows the stop signal to a task, given whether it was sent.
    pub fn after_stop_signal(sent: bool) -> (step: StopStep)
        ensures
            step == (if sent {
                StopStep::CloseSignalChannel
            } else {
                StopStep::AbortTask
            }),
    {
        if sent {
            StopStep::CloseSignalChannel
        } else {
            StopStep::AbortTask
        }
    }
}

/// The heartbeat starts at the interval that the gateway's hello carries,
/// whatever that interval is.
pub proof fn lemma_heartbeat_at_hello_interval(heartbeat_interval: u64)
    ensures
        action_after((ShardEvent::HelloReceived { heartbeat_interval }))
            == (ShardAction::StartHeartbeatAndIdentify { heartbeat_interval }),
{
}

/// Only an attack on the websocket, an unexpected websocket error and an
/// unexpected frame stop the runtime: text, ping, pong and close frames are
/// handled, and so is every other receive error.
pub proof fn lemma_handled_events(event: ShardEvent)
    ensures
        !is_handled(event) <==> (event == ShardEvent::ReceiveFailed(ReceiveError::AttackAttempt)
            || event == ShardEvent::ReceiveFailed(ReceiveError::Other) || event
            == ShardEvent::Received(FrameKind::Other)),
        is_handled(ShardEvent::Received(FrameKind::Text)),
        is_handled(ShardEvent::Received(FrameKind::Ping)),
        is_handled(ShardEvent::Received(FrameKind::Pong)),
        is_handled(ShardEvent::Received(FrameKind::Close)),
{
}

/// How events move a shard's status: a connection request makes it
/// connecting, a sent identity payload connected; a failed hello, a failed
/// identification, a failed send, a close frame and every receive error but
/// an undecodable text disconnect it; every other event leaves it as it was.
pub proof fn lemma_status_rules(status: ShardStatus, event: ShardEvent)
    ensures
        event == ShardEvent::ConnectRequested ==> next_status(status, event) == ShardStatus::Connecting,
        event == ShardEvent::IdentifySent ==> next_status(status, event) == ShardStatus::Connected,
        (event == ShardEvent::HelloFailed || event == ShardEvent::IdentifyFailed || event
            == ShardEvent::SendFailed || event == ShardEvent::Received(FrameKind::Close) || (
        event is ReceiveFailed && event->ReceiveFailed_0 != ReceiveError::Utf8))
            ==> next_status(status, event) == ShardStatus::Disconnected,
        (event == ShardEvent::SocketFailed || event == ShardEvent::SocketOpened
            || event is HelloReceived || event == ShardEvent::ReceiveFailed(ReceiveError::Utf8)
            || event == ShardEvent::Received(FrameKind::Text) || event == ShardEvent::Received(
            FrameKind::Ping,
        ) || event == ShardEvent::Received(FrameKind::Pong)) ==> next_status(status, event)
            == status,
{
}

/// What the runtime does after each event: a text frame is dispatched,
/// other frames are read past, every receive error ends the receiver, a
/// failed send ends the sender, and the handshake goes socket, hello,
/// heartbeat and identity.
pub proof fn lemma_action_rules(event: ShardEvent)
    ensures
        event == ShardEvent::ConnectRequested ==> action_after(event) == ShardAction::OpenSocket,
        event == ShardEvent::SocketFailed ==> action_after(event) == ShardAction::Abandon,
        event == ShardEvent::SocketOpened ==> action_after(event) == ShardAction::AwaitHello,
        event == ShardEvent::HelloFailed ==> action_after(event) == ShardAction::CloseSocket,
        event == ShardEvent::IdentifyFailed ==> action_after(event)
            == ShardAction::CloseShardAndSocket,
        event == ShardEvent::IdentifySent ==> action_after(event) == ShardAction::Done,
        event == ShardEvent::SendFailed ==> action_after(event) == ShardAction::StopSending,
        event is ReceiveFailed ==> action_after(event) == ShardAction::StopReceiving,
        event == ShardEvent::Received(FrameKind::Text) ==> action_after(event)
            == ShardAction::Dispatch,
        (event == ShardEvent::Received(FrameKind::Ping) || event == ShardEvent::Received(
            FrameKind::Pong,
        ) || event == ShardEvent::Received(FrameKind::Close)) ==> action_after(event)
            == ShardAction::KeepReceiving,
{
}

/// A heartbeat session counts as closed exactly when its stop channel is
/// closed and its task has finished.
pub proof fn lemma_heartbeat_closed(stop_channel_closed: bool, task_finished: bool)
    ensures
        heartbeat_closed(stop_channel_closed, task_finished) <==> (stop_channel_closed
            && task_finished),
{
}

/// A shard that was not connected is connected after some events only if its
/// identity payload was sent among them.
pub proof fn lemma_connected_only_after_identify(status: ShardStatus, events: Seq<ShardEvent>)
    requires
        status != ShardStatus::Connected,
        status_after(status, events) == ShardStatus::Connected,
    ensures
        events.contains(ShardEvent::IdentifySent),
    decreases events.len(),
{
    if events.last() == ShardEvent::IdentifySent {
        assert(events[events.len() - 1] == ShardEvent::IdentifySent);
    } else {
        let prefix = events.drop_last();
        lemma_connected_only_after_identify(status, prefix);
        let i = choose|i: int| 0 <= i < prefix.len() && prefix[i] == ShardEvent::IdentifySent;
        assert(events[i] == ShardEvent::IdentifySent);
    }
}

} // verus!
