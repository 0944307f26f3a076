//! The Store Client: the request/reply protocol spoken with the key-value
//! store actor.
//!
//! The store is reached only by message passing, so this module never sends
//! anything itself: it builds the request bytes for a persist or a fetch and
//! reads the reply bytes back, with an exact contract for every shape a reply
//! can take.  A missing reply is the transport failing; a reply of the wrong
//! shape is the store misbehaving.

use vstd::prelude::*;

use crate::codec::{
    encode_get_request, encode_message, encode_put_request, decode_message_fields, get_reply_value,
    get_request_json, msg_json, msg_parse, opt_bytes_view, parse_get_reply, parse_put_reply,
    put_reply_key, put_request_json,
};
use crate::message::{Message, MessageView, opt_view, stamp};

verus! {

/// How a single store round trip can fail.
#[derive(Clone, Copy, Debug, PartialEq, Eq, Structural)]
pub enum StoreError {
    /// No reply came back at all.
    Unavailable,
    /// A reply came back without `"status":"ok"` or without the expected field.
    MalformedResponse,
}

/// The view of a persist reply result.
pub open spec fn res_str_view(r: Result<String, StoreError>) -> Result<Seq<char>, StoreError> {
    match r {
        Ok(s) => Ok(s@),
        Err(e) => Err(e),
    }
}

/// The view of a fetch reply result.
pub open spec fn res_msg_view(r: Result<Message, StoreError>) -> Result<MessageView, StoreError> {
    match r {
        Ok(m) => Ok(m@),
        Err(e) => Err(e),
    }
}

/// The bytes a persist of message `m` puts on the wire: the Put envelope
/// around the message record.
pub open spec fn persist_request_spec(m: MessageView) -> Seq<u8> {
    put_request_json(msg_json(m.role, m.content, m.parent))
}

/// What a persist reply means: the assigned key when the reply is well
/// formed, which error otherwise.
pub open spec fn persist_reply_spec(resp: Option<Seq<u8>>) -> Result<Seq<char>, StoreError> {
    match resp {
        None => Err(StoreError::Unavailable),
        Some(bytes) => match put_reply_key(bytes) {
            Some(key) => Ok(key),
            None => Err(StoreError::MalformedResponse),
        },
    }
}

/// What a fetch reply means: the message record carried in the reply, its id
/// stamped to the key that was asked for (the store is not trusted to echo
/// it), or which error otherwise.
pub open spec fn fetch_reply_spec(resp: Option<Seq<u8>>, id: Seq<char>) -> Result<
    MessageView,
    StoreError,
> {
    match resp {
        None => Err(StoreError::Unavailable),
        Some(bytes) => match get_reply_value(bytes) {
            None => Err(StoreError::MalformedResponse),
            Some(payload) => match msg_parse(payload) {
                None => Err(StoreError::MalformedResponse),
                Some((role, content, parent)) => Ok(
                    MessageView { role, content, parent, id: Some(id) },
                ),
            },
        },
    }
}

/// The request bytes that persist message `m`.
pub fn persist_request(m: &Message) -> (r: Vec<u8>)
    requires
        m@.id is None,
    ensures
        r@ == persist_request_spec(m@),
{
    let payload = encode_message(m);
    encode_put_request(&payload)
}

/// The key assigned by the store, read out of a persist reply.
pub fn parse_persist_reply(resp: &Option<Vec<u8>>) -> (r: Result<String, StoreError>)
    ensures
        res_str_view(r) == persist_reply_spec(opt_bytes_view(*resp)),
{
    match resp {
        None => Err(StoreError::Unavailable),
        Some(bytes) => match parse_put_reply(bytes.as_slice()) {
            Some(key) => Ok(key),
            None => Err(StoreError::MalformedResponse),
        },
    }
}

/// The request bytes that fetch the message stored under `id`.
pub fn fetch_request(id: &String) -> (r: Vec<u8>)
    ensures
        r@ == get_request_json(id@),
{
    encode_get_request(id)
}

/// The message read out of a fetch reply, stamped with the key it was asked
/// for.
pub fn parse_fetch_reply(resp: &Option<Vec<u8>>, id: String) -> (r: Result<Message, StoreError>)
    ensures
        res_msg_view(r) == fetch_reply_spec(opt_bytes_view(*resp), id@),
{
    match resp {
        None => Err(StoreError::Unavailable),
        Some(bytes) => match parse_get_reply(bytes.as_slice()) {
            None => Err(StoreError::MalformedResponse),
            Some(payload) => match decode_message_fields(payload.as_slice()) {
                None => Err(StoreError::MalformedResponse),
                Some((role, content, parent)) => Ok(
                    Message { role, content, parent, id: Some(id) },
                ),
            },
        },
    }
}

/// Round trip through the store: a store that keeps the bytes a persist of
/// `m` gave it, and hands them back to a fetch under the assigned key `id`,
/// hands back `m` itself — same role, content and parent — with `id` stamped
/// on it.
pub fn persisted_then_fetched(m: &Message, id: String) -> (r: Message)
    requires
        m@.id is None,
    ensures
        r@ == stamp(m@, id@),
{
    let payload = encode_message(m);
    let fields = decode_message_fields(payload.as_slice());
    let (role, content, parent) = fields.unwrap();
    Message { role, content, parent, id: Some(id) }
}

} // verus!
