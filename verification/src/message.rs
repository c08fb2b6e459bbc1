//! The broadcast payload: an opaque text or binary blob.
//!
//! Binary payloads are carried as `bytes::Bytes` so that fanning one message
//! out to many recipients shares the buffer instead of reallocating it; the
//! contents of such a buffer are abstracted by [`bytes_view`].

use vstd::prelude::*;

verus! {

/// The mathematical value of one broadcast message.
pub enum MessageModel {
    Text(Seq<char>),
    Binary(Seq<u8>),
}

/// What a `bytes::Bytes` buffer holds.
pub uninterp spec fn bytes_view(b: bytes::Bytes) -> Seq<u8>;

#[verifier::external_type_specification]
#[verifier::external_body]
pub struct ExBytes(bytes::Bytes);

/// Relies on `<bytes::Bytes as From<Vec<u8>>>::from`: the buffer takes over the
/// vector's contents unchanged.
#[verifier::external_body]
pub fn bytes_from_vec(v: Vec<u8>) -> (r: bytes::Bytes)
    ensures
        bytes_view(r) == v@,
{
    bytes::Bytes::from(v)
}

/// Relies on `<bytes::Bytes as Clone>::clone`: a clone is a shallow copy that
/// refers to the same contents.
#[verifier::external_body]
pub fn bytes_clone(b: &bytes::Bytes) -> (r: bytes::Bytes)
    ensures
        bytes_view(r) == bytes_view(*b),
{
    b.clone()
}

/// One message delivered to every live session: opaque text or binary.
pub enum ServerMessage {
    Text(String),
    Binary(bytes::Bytes),
}

impl View for ServerMessage {
    type V = MessageModel;

    open spec fn view(&self) -> MessageModel {
        match self {
            ServerMessage::Text(s) => MessageModel::Text(s@),
            ServerMessage::Binary(b) => MessageModel::Binary(bytes_view(*b)),
        }
    }
}

impl Clone for ServerMessage {
    /// A logical copy: cheap for binary payloads, which share their buffer.
    fn clone(&self) -> (r: Self)
        ensures
            r@ == self@,
    {
        match self {
            ServerMessage::Text(s) => ServerMessage::Text(s.clone()),
            ServerMessage::Binary(b) => ServerMessage::Binary(bytes_clone(b)),
        }
    }
}

} // verus!
