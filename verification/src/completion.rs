//! The Completion Client: one synchronous call to the external text
//! generation provider.
//!
//! The provider is reached over a transport this crate does not own, so this
//! module only builds the request body — each history message projected to
//! its role and content, under a fixed model identifier and token budget —
//! and reads the generated text back out of the reply bytes.

use vstd::prelude::*;

use crate::codec::{
    completion_request_json, completion_text_of, encode_completion_request, pairs_view,
    parse_completion_reply,
};
use crate::message::{Message, MessageView, msgs_view, opt_view};

verus! {

/// The token budget sent with every provider call.
pub const MAX_TOKENS: u64 = 1024;

/// Each history message reduced to what the provider understands: its role
/// and its content.
pub open spec fn projected(history: Seq<MessageView>) -> Seq<(Seq<char>, Seq<char>)> {
    history.map_values(|m: MessageView| (m.role, m.content))
}

/// The request body a history is sent as: the fixed model identifier and
/// token budget, and the projected history.
pub open spec fn completion_request_spec(history: Seq<MessageView>) -> Seq<u8> {
    completion_request_json("chat-model-v1"@, MAX_TOKENS, projected(history))
}

/// What a provider reply means: the generated text, or nothing when the call
/// never answered or the reply carries no text.
pub open spec fn completion_reply_spec(resp: Option<Seq<u8>>) -> Option<Seq<char>> {
    match resp {
        None => None,
        Some(bytes) => completion_text_of(bytes),
    }
}

/// The request body for a completion call over `history`.
pub fn build_completion_request(history: &Vec<Message>) -> (r: Vec<u8>)
    ensures
        r@ == completion_request_spec(msgs_view(history@)),
{
    let mut pairs: Vec<(String, String)> = Vec::new();
    let mut i: usize = 0;
    while i < history.len()
        invariant
            i <= history@.len(),
            pairs@.len() == i,
            forall|j: int|
                0 <= j < i ==> pairs@[j].0@ == history@[j]@.role && pairs@[j].1@
                    == history@[j]@.content,
        decreases history@.len() - i,
    {
        let m = &history[i];
        pairs.push((m.role.clone(), m.content.clone()));
        i += 1;
    }
    proof {
        assert(pairs_view(pairs@) =~= projected(msgs_view(history@)));
    }
    encode_completion_request("chat-model-v1", MAX_TOKENS, &pairs)
}

/// The generated text read out of a provider reply, if any came.
pub fn parse_completion_response(resp: &Option<Vec<u8>>) -> (r: Option<String>)
    ensures
        opt_view(r) == completion_reply_spec(crate::codec::opt_bytes_view(*resp)),
{
    match resp {
        None => None,
        Some(bytes) => parse_completion_reply(bytes.as_slice()),
    }
}

} // verus!
