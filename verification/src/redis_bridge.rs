//! The bridge: mirroring broadcasts to and from an external pub/sub channel.
//!
//! A locally originated message is fanned out through the hub and handed back
//! to the caller as a publish request for the external channel, so other
//! service instances sharing the channel see it too. A message received from
//! the external channel is injected into the hub as a binary broadcast and is
//! never re-published: the subscriber path bypasses the publish path, which
//! keeps two instances from echoing every message back and forth forever.
//!
//! Opening the external connection, sending a publish request, and running
//! the subscription loop are transport work the caller performs; a transport
//! failure there never reaches the hub or any session.

use vstd::prelude::*;
use crate::hub::{fanout, Hub};
use crate::message::{bytes_from_vec, MessageModel, ServerMessage};

verus! {

/// Where and how to reach the external channel. Immutable for the lifetime
/// of one bridge instance.
pub struct RedisBridgeConfig {
    pub url: String,
    pub channel: String,
}

impl Clone for RedisBridgeConfig {
    fn clone(&self) -> (r: Self)
        ensures
            r.url@ == self.url@,
            r.channel@ == self.channel@,
    {
        RedisBridgeConfig { url: self.url.clone(), channel: self.channel.clone() }
    }
}

/// Where a message entered this service instance: from one of its own
/// producers, or from the external channel it subscribes to.
pub enum BridgeEvent {
    Local(ServerMessage),
    External(Vec<u8>),
}

/// A publish the caller still has to perform against the external bus.
pub struct PublishRequest {
    pub channel: String,
    pub message: ServerMessage,
}

/// The message an event injects into the hub: a local message as it is, an
/// external payload as an opaque binary blob.
pub open spec fn event_message(ev: BridgeEvent) -> MessageModel {
    match ev {
        BridgeEvent::Local(m) => m@,
        BridgeEvent::External(p) => MessageModel::Binary(p@),
    }
}

/// Mirror one event through the hub. Every event is broadcast to all live
/// sessions; only a locally originated one also yields a publish request for
/// the external channel. An external event yields none — the no-echo rule.
pub fn bridge_step(hub: &mut Hub, cfg: &RedisBridgeConfig, ev: BridgeEvent) -> (r: Option<
    PublishRequest,
>)
    requires
        old(hub).wf(),
    ensures
        final(hub).wf(),
        final(hub)@ == fanout(old(hub)@, event_message(ev)),
        (ev matches BridgeEvent::External(_) ==> r is None),
        (ev matches BridgeEvent::Local(m) ==> (r matches Some(pr) && pr.message@ == m@
            && pr.channel@ == cfg.channel@)),
{
    match ev {
        BridgeEvent::Local(m) => {
            hub.broadcast(&m);
            Some(PublishRequest { channel: cfg.channel.clone(), message: m })
        },
        BridgeEvent::External(p) => {
            let msg = ServerMessage::Binary(bytes_from_vec(p));
            hub.broadcast(&msg);
            None
        },
    }
}

/// Broadcast a message to all live sessions and, when a bridge is
/// configured, also hand back the publish request that mirrors it to the
/// external channel; without a bridge there is nothing to publish.
pub fn broadcast_and_maybe_publish(
    hub: &mut Hub,
    msg: ServerMessage,
    bridge: Option<&RedisBridgeConfig>,
) -> (r: Option<PublishRequest>)
    requires
        old(hub).wf(),
    ensures
        final(hub).wf(),
        final(hub)@ == fanout(old(hub)@, msg@),
        (bridge matches Some(cfg) ==> (r matches Some(pr) && pr.message@ == msg@ && pr.channel@
            == cfg.channel@)),
        (bridge is None ==> r is None),
{
    match bridge {
        Some(cfg) => bridge_step(hub, cfg, BridgeEvent::Local(msg)),
        None => {
            hub.broadcast(&msg);
            None
        },
    }
}

} // verus!
