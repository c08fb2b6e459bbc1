//! A real-time fan-out broadcast service core.
//!
//! The crate verifies the triad at the heart of a websocket broadcast server:
//! the [`hub::Hub`] registry that tracks live sessions and fans messages out
//! to their mailboxes, the [`ws::WsSession`] per-connection state machine with
//! liveness probing, and the [`redis_bridge`] adapter that mirrors broadcasts
//! to and from an external publish/subscribe channel.

pub mod hub;
pub mod message;
pub mod proto;
pub mod redis_bridge;
pub mod upload;
pub mod ws;

pub use hub::{Broadcast, Hub, HubCommand};
pub use message::{MessageModel, ServerMessage};
pub use ws::WsSession;
