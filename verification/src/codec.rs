//! The JSON wire formats, behind trusted serde_json calls.
//!
//! Every byte string that crosses a process boundary — the store's request
//! envelope and replies, the persisted message record, the completion
//! provider's request body and reply, and the inbound command text — is
//! produced or read here.  Each serde_json call sits in one trusted wrapper
//! whose result is a function of its arguments alone and is given a name, so
//! that the verified logic can speak of those bytes exactly.

use vstd::prelude::*;

use serde_json::Value;

use crate::message::{Message, opt_view};

verus! {

/// The JSON record of a message: object with `role`, `content`, `parent` and
/// a null `id`, as serde_json::to_vec writes it.
pub uninterp spec fn msg_json(role: Seq<char>, content: Seq<char>, parent: Option<Seq<char>>) -> Seq<u8>;

/// What serde_json::from_slice reads back out of a message record: the
/// `role`, `content` and `parent` fields, or nothing when the bytes are not
/// such a record.
pub uninterp spec fn msg_parse(bytes: Seq<u8>) -> Option<(Seq<char>, Seq<char>, Option<Seq<char>>)>;

/// The store request envelope `{"_type":"request","data":{"Put":[...]}}`
/// around a payload, as serde_json::to_vec writes it.
pub uninterp spec fn put_request_json(payload: Seq<u8>) -> Seq<u8>;

/// The store request envelope `{"_type":"request","data":{"Get":id}}`,
/// as serde_json::to_vec writes it.
pub uninterp spec fn get_request_json(id: Seq<char>) -> Seq<u8>;

/// The key in a store reply to a Put: present exactly when the bytes are a
/// JSON object with `"status":"ok"` and a string `key` field.
pub uninterp spec fn put_reply_key(bytes: Seq<u8>) -> Option<Seq<char>>;

/// The payload in a store reply to a Get: present exactly when the bytes are
/// a JSON object with `"status":"ok"` and an array `value` field; each array
/// entry is read as one byte, entries that are not small integers as zero.
pub uninterp spec fn get_reply_value(bytes: Seq<u8>) -> Option<Seq<u8>>;

/// The completion provider's request body
/// `{"model":...,"max_tokens":...,"messages":[{"role","content"},...]}`,
/// as serde_json::to_vec writes it.
pub uninterp spec fn completion_request_json(
    model: Seq<char>,
    max_tokens: u64,
    messages: Seq<(Seq<char>, Seq<char>)>,
) -> Seq<u8>;

/// The generated text in a completion reply: the string at
/// `content[0].text`, or nothing when the bytes carry no such string.
pub uninterp spec fn completion_text_of(bytes: Seq<u8>) -> Option<Seq<char>>;

/// What an inbound command text holds: nothing when the text is not JSON,
/// else its `type` and `content` fields, each present exactly when it is a
/// string.
pub uninterp spec fn command_fields_of(text: Seq<char>) -> Option<(Option<Seq<char>>, Option<Seq<char>>)>;

/// The view of decoded message fields.
pub open spec fn fields_view(r: Option<(String, String, Option<String>)>) -> Option<
    (Seq<char>, Seq<char>, Option<Seq<char>>),
> {
    match r {
        Some((role, content, parent)) => Some((role@, content@, opt_view(parent))),
        None => None,
    }
}

/// The view of an optional byte vector.
pub open spec fn opt_bytes_view(o: Option<Vec<u8>>) -> Option<Seq<u8>> {
    match o {
        Some(b) => Some(b@),
        None => None,
    }
}

/// The view of decoded command fields.
pub open spec fn cmd_fields_view(r: Option<(Option<String>, Option<String>)>) -> Option<
    (Option<Seq<char>>, Option<Seq<char>>),
> {
    match r {
        Some((ty, content)) => Some((opt_view(ty), opt_view(content))),
        None => None,
    }
}

/// Relies on serde_json::to_vec: writes the message's fields as a JSON object
/// whose bytes depend on those fields alone, and serde_json::from_slice reads
/// the same fields back out of them.
#[verifier::external_body]
pub(crate) fn encode_message(m: &Message) -> (r: Vec<u8>)
    requires
        m@.id is None,
    ensures
        r@ == msg_json(m@.role, m@.content, m@.parent),
        msg_parse(r@) == Some((m@.role, m@.content, m@.parent)),
{
    let mut o = serde_json::Map::new();
    o.insert("role".to_string(), Value::String(m.role.clone()));
    o.insert("content".to_string(), Value::String(m.content.clone()));
    o.insert("parent".to_string(), match &m.parent {
        Some(p) => Value::String(p.clone()),
        None => Value::Null,
    });
    o.insert("id".to_string(), Value::Null);
    serde_json::to_vec(&Value::Object(o)).unwrap()
}

/// Relies on serde_json::from_slice: reads the `role`, `content` and `parent`
/// fields of a JSON message record; the result depends on the bytes alone.
#[verifier::external_body]
pub(crate) fn decode_message_fields(bytes: &[u8]) -> (r: Option<(String, String, Option<String>)>)
    ensures
        fields_view(r) == msg_parse(bytes@),
{
    let v: Value = serde_json::from_slice(bytes).ok()?;
    let role = v.get("role")?.as_str()?.to_string();
    let content = v.get("content")?.as_str()?.to_string();
    let parent = match v.get("parent") {
        Some(Value::String(p)) => Some(p.clone()),
        _ => None,
    };
    Some((role, content, parent))
}

/// Relies on serde_json::to_vec: wraps the payload bytes in the store's Put
/// request envelope; the bytes depend on the payload alone.
#[verifier::external_body]
pub(crate) fn encode_put_request(payload: &Vec<u8>) -> (r: Vec<u8>)
    ensures
        r@ == put_request_json(payload@),
{
    let bytes: Vec<Value> = payload.iter().map(|b| Value::from(*b)).collect();
    let mut data = serde_json::Map::new();
    data.insert("Put".to_string(), Value::Array(bytes));
    let mut req = serde_json::Map::new();
    req.insert("_type".to_string(), Value::String("request".to_string()));
    req.insert("data".to_string(), Value::Object(data));
    serde_json::to_vec(&Value::Object(req)).unwrap()
}

/// Relies on serde_json::to_vec: wraps the key in the store's Get request
/// envelope; the bytes depend on the key alone.
#[verifier::external_body]
pub(crate) fn encode_get_request(id: &String) -> (r: Vec<u8>)
    ensures
        r@ == get_request_json(id@),
{
    let mut data = serde_json::Map::new();
    data.insert("Get".to_string(), Value::String(id.clone()));
    let mut req = serde_json::Map::new();
    req.insert("_type".to_string(), Value::String("request".to_string()));
    req.insert("data".to_string(), Value::Object(data));
    serde_json::to_vec(&Value::Object(req)).unwrap()
}

/// Relies on serde_json::from_slice: reads the assigned key out of a store
/// reply with `"status":"ok"`; the result depends on the bytes alone.
#[verifier::external_body]
pub(crate) fn parse_put_reply(bytes: &[u8]) -> (r: Option<String>)
    ensures
        opt_view(r) == put_reply_key(bytes@),
{
    let v: Value = serde_json::from_slice(bytes).ok()?;
    if v.get("status")?.as_str()? != "ok" {
        return None;
    }
    Some(v.get("key")?.as_str()?.to_string())
}

/// Relies on serde_json::from_slice: reads the `value` byte array out of a
/// store reply with `"status":"ok"`; the result depends on the bytes alone.
#[verifier::external_body]
pub(crate) fn parse_get_reply(bytes: &[u8]) -> (r: Option<Vec<u8>>)
    ensures
        opt_bytes_view(r) == get_reply_value(bytes@),
{
    let v: Value = serde_json::from_slice(bytes).ok()?;
    if v.get("status")?.as_str()? != "ok" {
        return None;
    }
    let arr = v.get("value")?.as_array()?;
    Some(arr.iter().map(|x| x.as_u64().unwrap_or(0) as u8).collect())
}

/// Relies on serde_json::to_vec: writes the provider's request body from the
/// model name, the token budget and the role/content pairs; the bytes depend
/// on those alone.
#[verifier::external_body]
pub(crate) fn encode_completion_request(
    model: &str,
    max_tokens: u64,
    messages: &Vec<(String, String)>,
) -> (r: Vec<u8>)
    ensures
        r@ == completion_request_json(model@, max_tokens, pairs_view(messages@)),
{
    let items: Vec<Value> = messages
        .iter()
        .map(|(role, content)| {
            let mut o = serde_json::Map::new();
            o.insert("role".to_string(), Value::String(role.clone()));
            o.insert("content".to_string(), Value::String(content.clone()));
            Value::Object(o)
        })
        .collect();
    let mut b = serde_json::Map::new();
    b.insert("model".to_string(), Value::String(model.to_string()));
    b.insert("max_tokens".to_string(), Value::from(max_tokens));
    b.insert("messages".to_string(), Value::Array(items));
    serde_json::to_vec(&Value::Object(b)).unwrap()
}

/// The views of a sequence of role/content pairs.
pub open spec fn pairs_view(s: Seq<(String, String)>) -> Seq<(Seq<char>, Seq<char>)> {
    s.map_values(|p: (String, String)| (p.0@, p.1@))
}

/// Relies on serde_json::from_slice: reads the string at `content[0].text`
/// out of a completion reply; the result depends on the bytes alone.
#[verifier::external_body]
pub(crate) fn parse_completion_reply(bytes: &[u8]) -> (r: Option<String>)
    ensures
        opt_view(r) == completion_text_of(bytes@),
{
    let v: Value = serde_json::from_slice(bytes).ok()?;
    Some(v.get("content")?.get(0)?.get("text")?.as_str()?.to_string())
}

/// Relies on serde_json::from_str: reads the `type` and `content` string
/// fields of an inbound command text; the result depends on the text alone.
#[verifier::external_body]
pub(crate) fn parse_command_fields(text: &str) -> (r: Option<(Option<String>, Option<String>)>)
    ensures
        cmd_fields_view(r) == command_fields_of(text@),
{
    let v: Value = serde_json::from_str(text).ok()?;
    let ty = v.get("type").and_then(|x| x.as_str()).map(|s| s.to_string());
    let content = v.get("content").and_then(|x| x.as_str()).map(|s| s.to_string());
    Some((ty, content))
}

} // verus!
