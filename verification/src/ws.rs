//! The per-connection session: protocol state machine and liveness.
//!
//! A session is created when a connection is accepted, subscribes itself to
//! the hub on start, converts inbound connection frames into hub broadcasts
//! (and, when a bridge is configured, publish requests), and detects dead
//! peers through a periodic ping whose answers refresh `last_heartbeat`. The
//! caller runs the transport and the timer; every decision — what to send,
//! when to stop, what to broadcast — is taken here.

use vstd::prelude::*;
use crate::hub::{fanout, subscribe_effect, Hub, MailboxModel};
use crate::message::{bytes_view, MessageModel, ServerMessage};
use crate::redis_bridge::{broadcast_and_maybe_publish, PublishRequest, RedisBridgeConfig};

verus! {

/// How often a live session probes its peer, in milliseconds.
pub const HEARTBEAT_INTERVAL_MS: u64 = 10_000;

/// How long a silent peer is tolerated before disconnection, in
/// milliseconds; two or three missed probe round trips.
pub const CLIENT_TIMEOUT_MS: u64 = 30_000;

/// The session lifecycle.
#[derive(Clone, Copy, Debug, PartialEq, Eq, Structural)]
pub enum SessionState {
    Starting,
    Active,
    Closing,
    Terminated,
}

/// A malformed inbound frame; local to one session, never fatal to the
/// process.
#[derive(Clone, Copy, Debug, PartialEq, Eq, Structural)]
pub struct ProtocolError;

/// One inbound frame from the connection, already decoded from the wire.
pub enum Frame {
    Ping(bytes::Bytes),
    Pong(bytes::Bytes),
    Text(String),
    Binary(bytes::Bytes),
    Close,
    Continuation,
    Nop,
}

/// What the caller must do with the connection after one inbound frame.
pub enum FrameAction {
    /// Nothing to send; carry on.
    Idle,
    /// Answer the peer's ping with this payload.
    SendPong(bytes::Bytes),
    /// Perform this publish against the external channel.
    Publish(PublishRequest),
    /// Acknowledge the peer's close handshake, then stop the session.
    CloseConnection,
    /// Stop the session without a close handshake.
    Stop,
}

/// What the caller must do when the heartbeat timer fires.
#[derive(Clone, Copy, Debug, PartialEq, Eq, Structural)]
pub enum HeartbeatAction {
    /// Probe the peer.
    SendPing,
    /// The peer has been silent past the timeout: stop the session.
    Disconnect,
}

/// A peer has been silent past the liveness timeout.
pub open spec fn timed_out(last_heartbeat: u64, timeout_ms: u64, now: u64) -> bool {
    now - last_heartbeat > timeout_ms
}

/// The session after one heartbeat tick at `now`: unchanged while the peer
/// is within its timeout, closing once it has been silent past it.
pub open spec fn tick_state(s: WsSession, now: u64) -> WsSession {
    if timed_out(s.last_heartbeat, s.timeout_ms, now) {
        WsSession { state: SessionState::Closing, ..s }
    } else {
        s
    }
}

/// What a heartbeat tick at `now` tells the caller to do.
pub open spec fn tick_action(s: WsSession, now: u64) -> HeartbeatAction {
    if timed_out(s.last_heartbeat, s.timeout_ms, now) {
        HeartbeatAction::Disconnect
    } else {
        HeartbeatAction::SendPing
    }
}

/// One websocket session: subscribes to the hub while active, re-broadcasts
/// inbound messages, and disconnects peers that stop answering probes.
pub struct WsSession {
    /// This session's handle in the hub's live set; stable for its lifetime.
    pub id: u64,
    /// When the peer last proved liveness (any pong, ping or message), in
    /// the caller's monotonic milliseconds.
    pub last_heartbeat: u64,
    /// The liveness timeout this session was configured with.
    pub timeout_ms: u64,
    pub state: SessionState,
}

impl WsSession {
    /// A session for one freshly accepted connection, with the default
    /// liveness timeout; it joins the hub on [`WsSession::started`].
    pub fn new(id: u64, now: u64) -> (s: WsSession)
        ensures
            s == (WsSession {
                id,
                last_heartbeat: now,
                timeout_ms: CLIENT_TIMEOUT_MS,
                state: SessionState::Starting,
            }),
    {
        WsSession { id, last_heartbeat: now, timeout_ms: CLIENT_TIMEOUT_MS, state: SessionState::Starting }
    }

    /// Like [`WsSession::new`] with an explicit liveness timeout, which
    /// should allow a few missed probe round trips.
    pub fn with_timeout(id: u64, now: u64, timeout_ms: u64) -> (s: WsSession)
        ensures
            s == (WsSession { id, last_heartbeat: now, timeout_ms, state: SessionState::Starting }),
    {
        WsSession { id, last_heartbeat: now, timeout_ms, state: SessionState::Starting }
    }

    /// Connection established: subscribe to the hub and become active. The
    /// caller arms the heartbeat timer at `HEARTBEAT_INTERVAL_MS`.
    pub fn started(&mut self, hub: &mut Hub)
        requires
            old(self).state == SessionState::Starting,
            old(hub).wf(),
        ensures
            final(hub).wf(),
            final(hub)@ == subscribe_effect(old(hub)@, old(self).id),
            *final(self) == (WsSession { state: SessionState::Active, ..*old(self) }),
    {
        hub.subscribe(self.id);
        self.state = SessionState::Active;
    }

    /// Session torn down: leave the hub's live set. Runs exactly once on
    /// every teardown path, normal or abnormal, so no stale handle outlives
    /// the session.
    pub fn stopped(&mut self, hub: &mut Hub)
        requires
            old(self).state == SessionState::Active || old(self).state == SessionState::Closing,
            old(hub).wf(),
        ensures
            final(hub).wf(),
            final(hub)@ == old(hub)@.remove(old(self).id),
            *final(self) == (WsSession { state: SessionState::Terminated, ..*old(self) }),
    {
        hub.unsubscribe(self.id);
        self.state = SessionState::Terminated;
    }

    /// The heartbeat timer fired: disconnect a peer that has been silent
    /// past the timeout, probe it otherwise. Guarantees a dead peer is caught
    /// on the first tick after its timeout elapses.
    pub fn heartbeat_tick(&mut self, now: u64) -> (act: HeartbeatAction)
        requires
            old(self).state == SessionState::Active,
            now >= old(self).last_heartbeat,
        ensures
            *final(self) == tick_state(*old(self), now),
            act == tick_action(*old(self), now),
    {
        if now - self.last_heartbeat > self.timeout_ms {
            self.state = SessionState::Closing;
            HeartbeatAction::Disconnect
        } else {
            HeartbeatAction::SendPing
        }
    }

    /// One inbound item from the connection. Liveness evidence (ping, pong,
    /// text, binary) refreshes `last_heartbeat`; text and binary frames are
    /// re-broadcast to every live session through the hub and, when a bridge
    /// is configured, mirrored to the external channel; a close frame, an
    /// unsupported continuation frame or a protocol error moves the session
    /// to `Closing` and never disturbs the hub.
    pub fn handle(
        &mut self,
        item: Result<Frame, ProtocolError>,
        now: u64,
        hub: &mut Hub,
        bridge: Option<&RedisBridgeConfig>,
    ) -> (act: FrameAction)
        requires
            old(self).state == SessionState::Active,
            old(hub).wf(),
        ensures
            final(hub).wf(),
            final(self).id == old(self).id,
            final(self).timeout_ms == old(self).timeout_ms,
            (item matches Err(_) ==> (act == FrameAction::Stop && *final(self) == (WsSession {
                state: SessionState::Closing,
                ..*old(self)
            }) && final(hub)@ == old(hub)@)),
            (item matches Ok(Frame::Ping(p)) ==> ((act matches FrameAction::SendPong(q)
                && bytes_view(q) == bytes_view(p)) && *final(self) == (WsSession {
                last_heartbeat: now,
                ..*old(self)
            }) && final(hub)@ == old(hub)@)),
            (item matches Ok(Frame::Pong(_)) ==> (act == FrameAction::Idle && *final(self)
                == (WsSession { last_heartbeat: now, ..*old(self) }) && final(hub)@ == old(hub)@)),
            (item matches Ok(Frame::Text(s)) ==> (*final(self) == (WsSession {
                last_heartbeat: now,
                ..*old(self)
            }) && final(hub)@ == fanout(old(hub)@, MessageModel::Text(s@)) && (bridge matches Some(
                cfg,
            ) ==> (act matches FrameAction::Publish(pr) && pr.message@ == MessageModel::Text(s@)
                && pr.channel@ == cfg.channel@)) && (bridge is None ==> act
                == FrameAction::Idle))),
            (item matches Ok(Frame::Binary(b)) ==> (*final(self) == (WsSession {
                last_heartbeat: now,
                ..*old(self)
            }) && final(hub)@ == fanout(old(hub)@, MessageModel::Binary(bytes_view(b))) && (
            bridge matches Some(cfg) ==> (act matches FrameAction::Publish(pr) && pr.message@
                == MessageModel::Binary(bytes_view(b)) && pr.channel@ == cfg.channel@)) && (
            bridge is None ==> act == FrameAction::Idle))),
            (item matches Ok(Frame::Close) ==> (act == FrameAction::CloseConnection && *final(self)
                == (WsSession { state: SessionState::Closing, ..*old(self) }) && final(hub)@
                == old(hub)@)),
            (item matches Ok(Frame::Continuation) ==> (act == FrameAction::Stop && *final(self)
                == (WsSession { state: SessionState::Closing, ..*old(self) }) && final(hub)@
                == old(hub)@)),
            (item matches Ok(Frame::Nop) ==> (act == FrameAction::Idle && *final(self) == *old(self)
                && final(hub)@ == old(hub)@)),
    {
        let frame = match item {
            Ok(f) => f,
            Err(_) => {
                self.state = SessionState::Closing;
                return FrameAction::Stop;
            },
        };
        match frame {
            Frame::Ping(p) => {
                self.last_heartbeat = now;
                FrameAction::SendPong(p)
            },
            Frame::Pong(_) => {
                self.last_heartbeat = now;
                FrameAction::Idle
            },
            Frame::Text(text) => {
                self.last_heartbeat = now;
                let r = broadcast_and_maybe_publish(hub, ServerMessage::Text(text), bridge);
                match r {
                    Some(pr) => FrameAction::Publish(pr),
                    None => FrameAction::Idle,
                }
            },
            Frame::Binary(bin) => {
                self.last_heartbeat = now;
                let r = broadcast_and_maybe_publish(hub, ServerMessage::Binary(bin), bridge);
                match r {
                    Some(pr) => FrameAction::Publish(pr),
                    None => FrameAction::Idle,
                }
            },
            Frame::Close => {
                self.state = SessionState::Closing;
                FrameAction::CloseConnection
            },
            Frame::Continuation => {
                self.state = SessionState::Closing;
                FrameAction::Stop
            },
            Frame::Nop => FrameAction::Idle,
        }
    }
}

/// Heartbeat timeout, end to end: a session whose peer has been silent past
/// the configured timeout is told to disconnect by the first timer tick
/// after the timeout elapses and moves to `Closing`, and the teardown that
/// follows removes its handle — and only its handle — from the hub's live
/// set, leaving every other subscriber untouched.
pub proof fn lemma_heartbeat_timeout(s: WsSession, now: u64, m: Map<u64, MailboxModel>)
    requires
        s.state == SessionState::Active,
        timed_out(s.last_heartbeat, s.timeout_ms, now),
    ensures
        tick_action(s, now) == HeartbeatAction::Disconnect,
        tick_state(s, now).state == SessionState::Closing,
        !m.remove(s.id).contains_key(s.id),
        forall|other: u64| other != s.id && m.contains_key(other) ==> m.remove(
            s.id,
        ).contains_key(other) && m.remove(s.id)[other] == m[other],
{
}

} // verus!
