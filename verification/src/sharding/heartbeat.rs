//! The heartbeat of a shard: at each interval it sends a ping that tells how
//! long ago the previous beat was, until it is told to stop or the shard can
//! no longer send.

use vstd::prelude::*;
use crate::sharding::payload::{
    decimal, decimal_text, decimal_value, frame, framed, is_digit, lemma_decimal_digits,
    lemma_decimal_injective, lemma_decimal_value, lemma_frame_unambiguous,
};
use crate::structures::gateway::op_codes::HELLO;

verus! {

/// A point in time, on tokio's clock.
#[verifier::external_type_specification]
#[verifier::external_body]
pub struct ExInstant(tokio::time::Instant);

/// The data of a ping: `null` before the first beat, else the whole
/// milliseconds elapsed since the previous beat.
pub open spec fn ping_data(elapsed: Option<u128>) -> Seq<char> {
    match elapsed {
        None => "null"@,
        Some(ms) => decimal(ms as nat),
    }
}

/// A ping carries `null` only before the first beat: after a beat it
/// carries the elapsed milliseconds in decimal, which denote that very
/// number, and two different numbers give two different pings.
pub proof fn lemma_ping_data(ms: u128, other: u128)
    ensures
        ping_data(None) == "null"@,
        ping_data(Some(ms)) == decimal(ms as nat),
        decimal_value(ping_data(Some(ms))) == ms,
        ping_data(Some(ms)) != ping_data(None),
        ms != other ==> framed(HELLO, ping_data(Some(ms))) != framed(HELLO, ping_data(Some(other))),
{
    reveal_strlit("null");
    lemma_decimal_value(ms as nat);
    lemma_decimal_digits(ms as nat);
    assert(!is_digit('n'));
    assert(ping_data(Some(ms))[0] != ping_data(None)[0]);
    if ms != other && framed(HELLO, ping_data(Some(ms))) == framed(HELLO, ping_data(Some(other))) {
        lemma_frame_unambiguous(HELLO, ping_data(Some(ms)), HELLO, ping_data(Some(other)));
        lemma_decimal_injective(ms as nat, other as nat);
    }
}

/// Builds the ping message, given the milliseconds elapsed since the previous
/// beat, if there was one.
pub fn create_ping_message(elapsed: Option<u128>) -> (msg: String)
    ensures
        msg@ == framed(HELLO, ping_data(elapsed)),
        elapsed is None ==> msg@ == framed(HELLO, "null"@),
        elapsed matches Some(ms) ==> msg@ == framed(HELLO, decimal(ms as nat)),
{
    match elapsed {
        None => frame(HELLO, "null"),
        Some(ms) => {
            let text = decimal_text(ms);
            frame(HELLO, text.as_str())
        },
    }
}

/// What happens to a heartbeat loop.
#[derive(Clone, Copy, Debug, PartialEq, Eq)]
pub enum HeartbeatEvent {
    /// The shard asked the heartbeat to stop.
    StopSignal,
    /// The interval elapsed; `sender_closed` tells whether the channel to the
    /// shard's websocket is closed.
    Tick { sender_closed: bool },
    /// The runtime measured the whole milliseconds elapsed since the last
    /// beat, as the loop asked it to.
    Measured { elapsed_ms: u128 },
    /// The ping could not be handed to the shard.
    SendFailed,
    /// The ping was handed to the shard at the instant `at`.
    SendSucceeded { at: tokio::time::Instant },
}

/// What a heartbeat loop does next.
#[derive(Debug, PartialEq, Eq)]
pub enum HeartbeatAction {
    /// Leave the loop, closing the stop channel.
    Stop,
    /// Hand this ping to the shard.
    Send(String),
    /// Measure the whole milliseconds elapsed since this instant, the last
    /// beat, and report them as `Measured`.
    Measure(tokio::time::Instant),
    /// Wait for the next event.
    KeepBeating,
}

/// Whether the loop stops on `event`: on a stop signal, or on a tick while
/// the shard's channel is closed.
pub open spec fn stops_on(event: HeartbeatEvent) -> bool {
    match event {
        HeartbeatEvent::StopSignal => true,
        HeartbeatEvent::Tick { sender_closed } => sender_closed,
        _ => false,
    }
}

/// The instant of the last beat after `event`, given the one before: a ping
/// handed to the shard records the instant at which it was handed.
pub open spec fn next_last_beat(
    last: Option<tokio::time::Instant>,
    event: HeartbeatEvent,
) -> Option<tokio::time::Instant> {
    match event {
        HeartbeatEvent::SendSucceeded { at } => Some(at),
        _ => last,
    }
}

/// The instant of the last beat after the events `events`, in order.
pub open spec fn last_beat_after(
    last: Option<tokio::time::Instant>,
    events: Seq<HeartbeatEvent>,
) -> Option<tokio::time::Instant>
    decreases events.len(),
{
    if events.len() == 0 {
        last
    } else {
        next_last_beat(last_beat_after(last, events.drop_last()), events.last())
    }
}

/// The loop stops exactly on a stop signal and on a tick while the shard's
/// channel is closed; only a ping handed to the shard records a beat, at
/// the instant it was handed.
pub proof fn lemma_step_rules(event: HeartbeatEvent, last: Option<tokio::time::Instant>)
    ensures
        stops_on(event) <==> (event == HeartbeatEvent::StopSignal || event
            == (HeartbeatEvent::Tick { sender_closed: true })),
        event matches HeartbeatEvent::SendSucceeded { at } ==> next_last_beat(last, event)
            == Some(at),
        !(event is SendSucceeded) ==> next_last_beat(last, event) == last,
{
}

/// Events among which no ping was handed to the shard leave the last beat as
/// it was.
pub proof fn lemma_no_send_keeps_last_beat(
    last: Option<tokio::time::Instant>,
    events: Seq<HeartbeatEvent>,
)
    requires
        forall|j: int| 0 <= j < events.len() ==> !(#[trigger] events[j] is SendSucceeded),
    ensures
        last_beat_after(last, events) == last,
    decreases events.len(),
{
    if events.len() > 0 {
        let prefix = events.drop_last();
        assert forall|j: int| 0 <= j < prefix.len() implies !(#[trigger] prefix[j] is SendSucceeded) by {
            assert(prefix[j] == events[j]);
        }
        lemma_no_send_keeps_last_beat(last, prefix);
        assert(!(events[events.len() - 1] is SendSucceeded));
    }
}

/// After some events, the last beat is the instant of the latest ping handed
/// to the shard among them.
pub proof fn lemma_last_beat_is_latest_send(
    last: Option<tokio::time::Instant>,
    events: Seq<HeartbeatEvent>,
    i: int,
)
    requires
        0 <= i < events.len(),
        events[i] is SendSucceeded,
        forall|j: int| i < j < events.len() ==> !(#[trigger] events[j] is SendSucceeded),
    ensures
        last_beat_after(last, events) == Some(events[i]->at),
    decreases events.len(),
{
    let prefix = events.drop_last();
    if i < events.len() - 1 {
        assert forall|j: int| i < j < prefix.len() implies !(#[trigger] prefix[j] is SendSucceeded) by {
            assert(prefix[j] == events[j]);
        }
        assert(prefix[i] == events[i]);
        lemma_last_beat_is_latest_send(last, prefix, i);
        assert(!(events[events.len() - 1] is SendSucceeded));
    }
}

/// A heartbeat that has not beaten has beaten after some events only if a
/// ping was handed to the shard among them.
pub proof fn lemma_beat_only_after_send(events: Seq<HeartbeatEvent>)
    requires
        last_beat_after(None, events) is Some,
    ensures
        exists|i: int| 0 <= i < events.len() && #[trigger] events[i] is SendSucceeded,
{
    if forall|j: int| 0 <= j < events.len() ==> !(#[trigger] events[j] is SendSucceeded) {
        lemma_no_send_keeps_last_beat(None, events);
    }
}

/// The state of a heartbeat: its interval and the instant of its last beat.
pub struct HeartbeatSession {
    heartbeat_interval: u64,
    last_heartbeat: Option<tokio::time::Instant>,
    stopped: bool,
}

impl HeartbeatSession {
    /// The interval, in milliseconds, between two beats.
    pub closed spec fn interval(&self) -> u64 {
        self.heartbeat_interval
    }

    /// The instant of the last beat, if one was recorded.
    pub closed spec fn last_beat(&self) -> Option<tokio::time::Instant> {
        self.last_heartbeat
    }

    /// Whether a beat has been recorded.
    pub open spec fn has_beaten(&self) -> bool {
        self.last_beat() is Some
    }

    /// Whether the loop has stopped.
    pub closed spec fn is_stopped(&self) -> bool {
        self.stopped
    }

    /// Starts a heartbeat that beats every `heartbeat_interval` milliseconds.
    pub fn new(heartbeat_interval: u64) -> (session: Self)
        ensures
            session.interval() == heartbeat_interval,
            session.last_beat() == None::<tokio::time::Instant>,
            !session.is_stopped(),
    {
        HeartbeatSession { heartbeat_interval, last_heartbeat: None, stopped: false }
    }

    /// The interval, in milliseconds, between two beats.
    pub fn heartbeat_interval(&self) -> (ms: u64)
        ensures
            ms == self.interval(),
    {
        self.heartbeat_interval
    }

    /// The instant of the last beat, if one was recorded.
    pub fn last_heartbeat(&self) -> (last: Option<tokio::time::Instant>)
        ensures
            last == self.last_beat(),
    {
        self.last_heartbeat
    }

    /// Whether the loop has stopped.
    pub fn stopped(&self) -> (b: bool)
        ensures
            b == self.is_stopped(),
    {
        self.stopped
    }

    /// Decides what the loop does on `event`.
    ///
    /// A stop signal, or a tick while the shard's channel is closed, stops
    /// the loop. Another tick sends a ping whose data is `null` when no beat
    /// was recorded yet; otherwise it asks the runtime to measure the time
    /// since the last beat, and the measure sends a ping that carries it. A
    /// ping handed to the shard records the instant at which it was handed;
    /// one that could not be handed records nothing, and neither does any
    /// other event.
    pub fn step(&mut self, event: HeartbeatEvent) -> (action: HeartbeatAction)
        requires
            !old(self).is_stopped(),
        ensures
            final(self).interval() == old(self).interval(),
            final(self).is_stopped() == stops_on(event),
            final(self).last_beat() == next_last_beat(old(self).last_beat(), event),
            stops_on(event) ==> action == HeartbeatAction::Stop,
            (event is SendFailed || event is SendSucceeded) ==> action == HeartbeatAction::KeepBeating,
            (event is Tick && !stops_on(event)) ==> match old(self).last_beat() {
                None => action is Send && action->Send_0@ == framed(HELLO, ping_data(None)),
                Some(last) => action == HeartbeatAction::Measure(last),
            },
            event is Measured ==> action is Send && action->Send_0@ == framed(
                HELLO,
                ping_data(Some(event->elapsed_ms)),
            ),
    {
        match event {
            HeartbeatEvent::StopSignal => {
                self.stopped = true;
                HeartbeatAction::Stop
            },
            HeartbeatEvent::Tick { sender_closed } => {
                if sender_closed {
                    self.stopped = true;
                    HeartbeatAction::Stop
                } else {
                    match self.last_heartbeat {
                        None => HeartbeatAction::Send(create_ping_message(None)),
                        Some(last) => HeartbeatAction::Measure(last),
                    }
                }
            },
            HeartbeatEvent::Measured { elapsed_ms } => {
                HeartbeatAction::Send(create_ping_message(Some(elapsed_ms)))
            },
            HeartbeatEvent::SendFailed => HeartbeatAction::KeepBeating,
            HeartbeatEvent::SendSucceeded { at } => {
                self.last_heartbeat = Some(at);
                HeartbeatAction::KeepBeating
            },
        }
    }
}

} // verus!
