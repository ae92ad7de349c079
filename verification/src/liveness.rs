//! The per-connection liveness protocol.
//!
//! Each connection runs a periodic timer.  On every tick the elapsed time
//! since the last liveness signal is held against a fixed timeout: a silent
//! connection is torn down (which triggers the coordinator's heartbeat
//! timeout handling), a live one is pinged.  Any inbound liveness signal or
//! client payload resets the last-seen timestamp.  Malformed inbound
//! payloads are dropped silently: one client's bad frame must never disrupt
//! others.

use vstd::prelude::*;

use crate::messages::ClientMessage;

verus! {

/// How often heartbeat pings are sent, in seconds.
pub const HEARTBEAT_INTERVAL_SECS: u64 = 5;

/// How long a connection may stay silent before it times out, in seconds.
pub const CLIENT_TIMEOUT_SECS: u64 = 10;

/// The time passed between a last-seen timestamp and now, on a monotonic
/// clock (never negative).
pub open spec fn elapsed_since(last_seen: u64, now: u64) -> u64 {
    if now >= last_seen {
        (now - last_seen) as u64
    } else {
        0
    }
}

/// What one timer tick decides for a connection.
#[derive(Debug, PartialEq, Eq)]
pub enum HeartbeatAction {
    /// The connection is live: send a ping and keep going.
    Ping,
    /// The liveness signal is overdue: tear the connection down and notify
    /// the coordinator of a heartbeat timeout.
    Disconnect,
}

/// Decides one timer tick: a connection with no liveness signal for longer
/// than the timeout threshold is disconnected; one heard from within the
/// threshold is pinged and never torn down.
pub fn heartbeat_tick(last_seen: u64, now: u64) -> (a: HeartbeatAction)
    ensures
        a is Disconnect <==> elapsed_since(last_seen, now) > CLIENT_TIMEOUT_SECS,
        a is Ping <==> elapsed_since(last_seen, now) <= CLIENT_TIMEOUT_SECS,
{
    if now >= last_seen && now - last_seen > CLIENT_TIMEOUT_SECS {
        HeartbeatAction::Disconnect
    } else {
        HeartbeatAction::Ping
    }
}

/// One inbound event on a connection's channel, as the transport hands it
/// in.  A text or binary frame carries the parse attempt of its payload:
/// `None` when it did not parse as a `ClientMessage`.
#[derive(Debug)]
pub enum SessionEvent {
    Ping,
    Pong,
    Text { parsed: Option<ClientMessage> },
    Binary,
    Close,
    Continuation,
    Nop,
    StreamError,
}

/// What the connection does in reaction to one inbound event.
#[derive(Debug, PartialEq, Eq)]
pub enum SessionAction {
    /// Answer the peer's ping.
    ReplyPong,
    /// Hand the parsed client message to the coordinator.
    Forward { message: ClientMessage },
    /// Do nothing (a liveness signal, an unusable frame, or a no-op).
    Ignore,
    /// Echo the close handshake and stop the connection.
    CloseAndStop,
    /// Stop the connection.
    Stop,
}

/// Decides the reaction to one inbound event, and whether the event counts
/// as a liveness signal.  Liveness signals and client payloads (parsed or
/// not) reset the last-seen timestamp; malformed payloads are otherwise
/// dropped silently; close, continuation frames and stream errors end the
/// connection.
pub fn on_session_event(event: SessionEvent) -> (r: (bool, SessionAction))
    ensures
        match event {
            SessionEvent::Ping => r.0 && r.1 is ReplyPong,
            SessionEvent::Pong => r.0 && r.1 is Ignore,
            SessionEvent::Text { parsed } => r.0 && match parsed {
                Some(m) => r.1 matches SessionAction::Forward { message } && message@ == m@,
                None => r.1 is Ignore,
            },
            SessionEvent::Binary => r.0 && r.1 is Ignore,
            SessionEvent::Close => !r.0 && r.1 is CloseAndStop,
            SessionEvent::Continuation => !r.0 && r.1 is Stop,
            SessionEvent::Nop => !r.0 && r.1 is Ignore,
            SessionEvent::StreamError => !r.0 && r.1 is Stop,
        },
{
    match event {
        SessionEvent::Ping => (true, SessionAction::ReplyPong),
        SessionEvent::Pong => (true, SessionAction::Ignore),
        SessionEvent::Text { parsed } => {
            match parsed {
                Some(message) => (true, SessionAction::Forward { message }),
                None => (true, SessionAction::Ignore),
            }
        },
        SessionEvent::Binary => (true, SessionAction::Ignore),
        SessionEvent::Close => (false, SessionAction::CloseAndStop),
        SessionEvent::Continuation => (false, SessionAction::Stop),
        SessionEvent::Nop => (false, SessionAction::Ignore),
        SessionEvent::StreamError => (false, SessionAction::Stop),
    }
}

} // verus!
