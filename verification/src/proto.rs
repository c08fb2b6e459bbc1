//! The sample application object and the update messages that carry it.
//!
//! The core transports payloads opaquely; how an object is encoded on the
//! wire (JSON or a binary format) is the producer's choice and happens at
//! the service edge. These types give the edge a common shape to hand
//! around: one object, or one already-encoded binary payload.

use vstd::prelude::*;

verus! {

/// The demo object producers post to the broadcast routes.
pub struct MyObj {
    pub number: i32,
    pub name: String,
}

impl Clone for MyObj {
    fn clone(&self) -> (r: Self)
        ensures
            r.number == self.number,
            r.name@ == self.name@,
    {
        MyObj { number: self.number, name: self.name.clone() }
    }
}

/// An update to be fanned out to sessions as text, carrying the object
/// itself; the edge encodes it when writing the frame.
pub struct BroadcastUpdate(pub MyObj);

/// An update to be fanned out to sessions as an opaque, already-encoded
/// binary payload.
pub struct BroadcastUpdateProto(pub bytes::Bytes);

/// An update addressed to passive listeners rather than broadcast sessions.
pub struct ListenUpdate(pub MyObj);

} // verus!
