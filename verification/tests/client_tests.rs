//! The store client and completion client, exercised against real JSON.

use chat_actor::completion::{build_completion_request, parse_completion_response};
use chat_actor::message::Message;
use chat_actor::store::{
    StoreError, fetch_request, parse_fetch_reply, parse_persist_reply, persist_request,
    persisted_then_fetched,
};
use serde_json::Value;

#[test]
fn message_new_has_no_id() {
    let m = Message::new("user".to_string(), "hi".to_string(), None);
    assert_eq!(m.role, "user");
    assert_eq!(m.content, "hi");
    assert!(m.parent.is_none());
    assert!(m.id.is_none());
}

#[test]
fn with_id_stamps_only_the_id() {
    let m = Message::new("user".to_string(), "hi".to_string(), Some("p".to_string()));
    let m = m.with_id("k1".to_string());
    assert_eq!(m.role, "user");
    assert_eq!(m.content, "hi");
    assert_eq!(m.parent.as_deref(), Some("p"));
    assert_eq!(m.id.as_deref(), Some("k1"));
}

#[test]
fn persist_then_fetch_returns_same_message_with_id() {
    let m = Message::new("user".to_string(), "hello".to_string(), Some("p1".to_string()));
    let r = persisted_then_fetched(&m, "k9".to_string());
    assert_eq!(r.role, "user");
    assert_eq!(r.content, "hello");
    assert_eq!(r.parent.as_deref(), Some("p1"));
    assert_eq!(r.id.as_deref(), Some("k9"));
}

#[test]
fn persist_request_wraps_message_in_put_envelope() {
    let m = Message::new("user".to_string(), "x".to_string(), None);
    let req = persist_request(&m);
    let v: Value = serde_json::from_slice(&req).unwrap();
    assert_eq!(v["_type"].as_str().unwrap(), "request");
    let payload: Vec<u8> = v["data"]["Put"]
        .as_array()
        .unwrap()
        .iter()
        .map(|x| x.as_u64().unwrap() as u8)
        .collect();
    let p: Value = serde_json::from_slice(&payload).unwrap();
    assert_eq!(p["role"].as_str().unwrap(), "user");
    assert_eq!(p["content"].as_str().unwrap(), "x");
    assert!(p["parent"].is_null());
    assert!(p["id"].is_null());
}

#[test]
fn persist_request_keeps_parent_key() {
    let m = Message::new("assistant".to_string(), "y".to_string(), Some("k0".to_string()));
    let req = persist_request(&m);
    let v: Value = serde_json::from_slice(&req).unwrap();
    let payload: Vec<u8> = v["data"]["Put"]
        .as_array()
        .unwrap()
        .iter()
        .map(|x| x.as_u64().unwrap() as u8)
        .collect();
    let p: Value = serde_json::from_slice(&payload).unwrap();
    assert_eq!(p["parent"].as_str().unwrap(), "k0");
}

#[test]
fn fetch_request_wraps_id_in_get_envelope() {
    let req = fetch_request(&"abc".to_string());
    let v: Value = serde_json::from_slice(&req).unwrap();
    assert_eq!(v["_type"].as_str().unwrap(), "request");
    assert_eq!(v["data"]["Get"].as_str().unwrap(), "abc");
}

#[test]
fn persist_reply_ok_returns_key() {
    let reply = "{\"status\":\"ok\",\"key\":\"k42\"}".as_bytes().to_vec();
    let r = parse_persist_reply(&Some(reply));
    assert_eq!(r.unwrap(), "k42");
}

#[test]
fn persist_reply_missing_is_unavailable() {
    let r = parse_persist_reply(&None);
    assert_eq!(r.unwrap_err(), StoreError::Unavailable);
}

#[test]
fn persist_reply_bad_status_is_malformed() {
    let reply = "{\"status\":\"error\"}".as_bytes().to_vec();
    let r = parse_persist_reply(&Some(reply));
    assert_eq!(r.unwrap_err(), StoreError::MalformedResponse);
}

#[test]
fn persist_reply_missing_key_is_malformed() {
    let reply = "{\"status\":\"ok\"}".as_bytes().to_vec();
    let r = parse_persist_reply(&Some(reply));
    assert_eq!(r.unwrap_err(), StoreError::MalformedResponse);
}

fn get_reply_with_payload(payload: &[u8]) -> Vec<u8> {
    let arr: Vec<Value> = payload.iter().map(|b| Value::from(*b)).collect();
    let mut o = serde_json::Map::new();
    o.insert("status".to_string(), Value::String("ok".to_string()));
    o.insert("value".to_string(), Value::Array(arr));
    serde_json::to_vec(&Value::Object(o)).unwrap()
}

#[test]
fn fetch_reply_decodes_record_and_stamps_id() {
    let payload = "{\"role\":\"user\",\"content\":\"hey\",\"parent\":\"p7\",\"id\":null}";
    let reply = get_reply_with_payload(payload.as_bytes());
    let m = parse_fetch_reply(&Some(reply), "k1".to_string()).unwrap();
    assert_eq!(m.role, "user");
    assert_eq!(m.content, "hey");
    assert_eq!(m.parent.as_deref(), Some("p7"));
    assert_eq!(m.id.as_deref(), Some("k1"));
}

#[test]
fn fetch_reply_does_not_trust_echoed_id() {
    let payload = "{\"role\":\"user\",\"content\":\"hey\",\"parent\":null,\"id\":\"lying\"}";
    let reply = get_reply_with_payload(payload.as_bytes());
    let m = parse_fetch_reply(&Some(reply), "k1".to_string()).unwrap();
    assert_eq!(m.id.as_deref(), Some("k1"));
}

#[test]
fn fetch_reply_without_value_is_malformed() {
    let reply = "{\"status\":\"ok\"}".as_bytes().to_vec();
    let r = parse_fetch_reply(&Some(reply), "k1".to_string());
    assert_eq!(r.unwrap_err(), StoreError::MalformedResponse);
}

#[test]
fn fetch_reply_with_garbage_payload_is_malformed() {
    let reply = get_reply_with_payload("not json".as_bytes());
    let r = parse_fetch_reply(&Some(reply), "k1".to_string());
    assert_eq!(r.unwrap_err(), StoreError::MalformedResponse);
}

#[test]
fn fetch_reply_missing_is_unavailable() {
    let r = parse_fetch_reply(&None, "k1".to_string());
    assert_eq!(r.unwrap_err(), StoreError::Unavailable);
}

#[test]
fn completion_request_carries_model_budget_and_projection() {
    let history = vec![
        Message::new("user".to_string(), "Hi".to_string(), None).with_id("a".to_string()),
        Message::new("assistant".to_string(), "Yo".to_string(), Some("a".to_string()))
            .with_id("b".to_string()),
    ];
    let body = build_completion_request(&history);
    let v: Value = serde_json::from_slice(&body).unwrap();
    assert_eq!(v["model"].as_str().unwrap(), "chat-model-v1");
    assert_eq!(v["max_tokens"].as_u64().unwrap(), 1024);
    let msgs = v["messages"].as_array().unwrap();
    assert_eq!(msgs.len(), 2);
    assert_eq!(msgs[0]["role"].as_str().unwrap(), "user");
    assert_eq!(msgs[0]["content"].as_str().unwrap(), "Hi");
    assert!(msgs[0].get("id").is_none());
    assert!(msgs[0].get("parent").is_none());
    assert_eq!(msgs[1]["role"].as_str().unwrap(), "assistant");
    assert_eq!(msgs[1]["content"].as_str().unwrap(), "Yo");
}

#[test]
fn completion_reply_extracts_first_text_block() {
    let reply = "{\"content\":[{\"type\":\"text\",\"text\":\"Hello there\"}]}"
        .as_bytes()
        .to_vec();
    let r = parse_completion_response(&Some(reply));
    assert_eq!(r.as_deref(), Some("Hello there"));
}

#[test]
fn completion_reply_without_text_is_failure() {
    let reply = "{\"content\":[]}".as_bytes().to_vec();
    assert!(parse_completion_response(&Some(reply)).is_none());
    let reply = "not json".as_bytes().to_vec();
    assert!(parse_completion_response(&Some(reply)).is_none());
    assert!(parse_completion_response(&None).is_none());
}
