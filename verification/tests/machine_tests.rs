//! The turn controller driven against a deterministic in-memory store and
//! completion provider.

use chat_actor::message::Message;
use chat_actor::turn::{Action, Command, OutEvent, State, TurnError, parse_command};
use serde_json::Value;
use std::collections::HashMap;

struct FakeStore {
    entries: HashMap<String, Vec<u8>>,
    next_key: usize,
    calls: usize,
}

impl FakeStore {
    fn new() -> FakeStore {
        FakeStore { entries: HashMap::new(), next_key: 0, calls: 0 }
    }

    fn insert_record(&mut self, key: &str, role: &str, content: &str, parent: Option<&str>) {
        let parent_json = match parent {
            Some(p) => format!("\"{}\"", p),
            None => "null".to_string(),
        };
        let payload = format!(
            "{{\"role\":\"{}\",\"content\":\"{}\",\"parent\":{},\"id\":null}}",
            role, content, parent_json
        );
        self.entries.insert(key.to_string(), payload.into_bytes());
    }

    fn handle(&mut self, request: &[u8]) -> Option<Vec<u8>> {
        self.calls += 1;
        let v: Value = serde_json::from_slice(request).unwrap();
        assert_eq!(v["_type"].as_str().unwrap(), "request");
        let data = &v["data"];
        if let Some(put) = data.get("Put") {
            let bytes: Vec<u8> = put
                .as_array()
                .unwrap()
                .iter()
                .map(|x| x.as_u64().unwrap() as u8)
                .collect();
            let key = format!("k{}", self.next_key);
            self.next_key += 1;
            self.entries.insert(key.clone(), bytes);
            Some(format!("{{\"status\":\"ok\",\"key\":\"{}\"}}", key).into_bytes())
        } else if let Some(get) = data.get("Get") {
            let key = get.as_str().unwrap();
            match self.entries.get(key) {
                Some(bytes) => {
                    let arr: Vec<Value> = bytes.iter().map(|b| Value::from(*b)).collect();
                    let mut o = serde_json::Map::new();
                    o.insert("status".to_string(), Value::String("ok".to_string()));
                    o.insert("value".to_string(), Value::Array(arr));
                    Some(serde_json::to_vec(&Value::Object(o)).unwrap())
                }
                None => Some("{\"status\":\"missing\"}".as_bytes().to_vec()),
            }
        } else {
            panic!("unexpected store action");
        }
    }
}

/// Runs the controller's action loop to quiescence, collecting every event.
fn drive(
    state: &mut State,
    first: (Action, Option<OutEvent>),
    store: &mut FakeStore,
    provider: &mut dyn FnMut(&[u8]) -> Option<Vec<u8>>,
) -> Vec<OutEvent> {
    let mut events = Vec::new();
    let mut step = first;
    loop {
        let (action, event) = step;
        if let Some(e) = event {
            events.push(e);
        }
        match action {
            Action::Noop => return events,
            Action::ToStore(bytes) => {
                let resp = store.handle(&bytes);
                step = state.handle_store_reply(resp);
            }
            Action::ToProvider(bytes) => {
                let resp = provider(&bytes);
                step = state.handle_provider_reply(resp);
            }
        }
    }
}

fn text_provider(text: &str) -> Vec<u8> {
    format!("{{\"content\":[{{\"type\":\"text\",\"text\":\"{}\"}}]}}", text).into_bytes()
}

#[test]
fn empty_history_is_empty() {
    let mut s = State::new(None);
    let (action, event) = s.get_message_history();
    assert!(matches!(action, Action::Noop));
    match event {
        Some(OutEvent::MessageUpdate(msgs)) => assert!(msgs.is_empty()),
        _ => panic!("expected an empty update"),
    }
}

#[test]
fn unknown_command_is_ignored() {
    let cmd = parse_command("{\"type\":\"ping\"}");
    assert!(matches!(cmd, Command::Unknown));
    let store = FakeStore::new();
    let mut s = State::new(None);
    let (action, event) = s.handle_command(cmd);
    assert!(matches!(action, Action::Noop));
    assert!(event.is_none());
    assert!(s.chat.head.is_none());
    assert_eq!(store.calls, 0);
}

#[test]
fn parse_command_classifies() {
    assert!(matches!(
        parse_command("{\"type\":\"send_message\",\"content\":\"Hi\"}"),
        Command::SendMessage(c) if c == "Hi"
    ));
    assert!(matches!(parse_command("{\"type\":\"get_messages\"}"), Command::GetMessages));
    assert!(matches!(parse_command("{\"type\":\"send_message\"}"), Command::Unknown));
    assert!(matches!(parse_command("{\"type\":17}"), Command::Unknown));
    assert!(matches!(parse_command("not json"), Command::Unknown));
}

#[test]
fn update_head_moves_the_head() {
    let mut s = State::new(Some("a".to_string()));
    s.update_head("b".to_string());
    assert_eq!(s.chat.head.as_deref(), Some("b"));
}

#[test]
fn full_turn_persists_both_and_chains_them() {
    let mut store = FakeStore::new();
    let mut s = State::new(None);
    let first = s.handle_command(Command::SendMessage("Hi".to_string()));
    let mut provider = |req: &[u8]| {
        let v: Value = serde_json::from_slice(req).unwrap();
        assert_eq!(v["model"].as_str().unwrap(), "chat-model-v1");
        assert_eq!(v["max_tokens"].as_u64().unwrap(), 1024);
        let msgs = v["messages"].as_array().unwrap();
        assert_eq!(msgs.len(), 1);
        assert_eq!(msgs[0]["role"].as_str().unwrap(), "user");
        assert_eq!(msgs[0]["content"].as_str().unwrap(), "Hi");
        Some(text_provider("Hello there"))
    };
    let events = drive(&mut s, first, &mut store, &mut provider);
    assert_eq!(events.len(), 1);
    match &events[0] {
        OutEvent::MessageUpdate(msgs) => {
            assert_eq!(msgs.len(), 2);
            assert_eq!(msgs[0].role, "user");
            assert_eq!(msgs[0].content, "Hi");
            assert!(msgs[0].parent.is_none());
            assert_eq!(msgs[0].id.as_deref(), Some("k0"));
            assert_eq!(msgs[1].role, "assistant");
            assert_eq!(msgs[1].content, "Hello there");
            assert_eq!(msgs[1].parent.as_deref(), Some("k0"));
            assert_eq!(msgs[1].id.as_deref(), Some("k1"));
        }
        _ => panic!("expected a message update"),
    }
    // Head advanced twice, to the assistant message.
    assert_eq!(s.chat.head.as_deref(), Some("k1"));
    assert_eq!(store.entries.len(), 2);

    // The resulting query returns both messages in chronological order.
    let first = s.handle_command(Command::GetMessages);
    let events = drive(&mut s, first, &mut store, &mut provider);
    assert_eq!(events.len(), 1);
    match &events[0] {
        OutEvent::MessageUpdate(msgs) => {
            assert_eq!(msgs.len(), 2);
            assert_eq!(msgs[0].role, "user");
            assert_eq!(msgs[0].content, "Hi");
            assert_eq!(msgs[1].role, "assistant");
            assert_eq!(msgs[1].content, "Hello there");
        }
        _ => panic!("expected a message update"),
    }
}

#[test]
fn provider_failure_keeps_user_message() {
    let mut store = FakeStore::new();
    let mut s = State::new(None);
    let first = s.handle_command(Command::SendMessage("Hello".to_string()));
    let mut failing = |_req: &[u8]| None;
    let events = drive(&mut s, first, &mut store, &mut failing);
    assert_eq!(events.len(), 1);
    assert!(matches!(events[0], OutEvent::TurnAborted(TurnError::GenerationFailure)));

    // The asymmetric failure mode: the user message survives, head advanced
    // once, and no assistant message exists.
    assert_eq!(s.chat.head.as_deref(), Some("k0"));
    assert_eq!(store.entries.len(), 1);
    let first = s.handle_command(Command::GetMessages);
    let events = drive(&mut s, first, &mut store, &mut failing);
    match &events[0] {
        OutEvent::MessageUpdate(msgs) => {
            assert_eq!(msgs.len(), 1);
            assert_eq!(msgs[0].role, "user");
            assert_eq!(msgs[0].content, "Hello");
            assert!(msgs[0].parent.is_none());
        }
        _ => panic!("expected a message update"),
    }
}

#[test]
fn store_unavailable_aborts_with_nothing_persisted() {
    let mut s = State::new(None);
    let (action, _) = s.handle_command(Command::SendMessage("Hi".to_string()));
    assert!(matches!(action, Action::ToStore(_)));
    let (action, event) = s.handle_store_reply(None);
    assert!(matches!(action, Action::Noop));
    assert!(matches!(event, Some(OutEvent::TurnAborted(TurnError::StoreUnavailable))));
    assert!(s.chat.head.is_none());
}

#[test]
fn malformed_store_reply_aborts() {
    let mut s = State::new(None);
    let (action, _) = s.handle_command(Command::SendMessage("Hi".to_string()));
    assert!(matches!(action, Action::ToStore(_)));
    let (_, event) = s.handle_store_reply(Some("{\"status\":\"error\"}".as_bytes().to_vec()));
    assert!(matches!(event, Some(OutEvent::TurnAborted(TurnError::StoreMalformedResponse))));
    assert!(s.chat.head.is_none());
}

#[test]
fn three_persisted_messages_come_back_in_creation_order() {
    let mut store = FakeStore::new();
    store.insert_record("a", "user", "m1", None);
    store.insert_record("b", "assistant", "m2", Some("a"));
    store.insert_record("c", "user", "m3", Some("b"));
    let mut s = State::new(Some("c".to_string()));
    let first = s.handle_command(Command::GetMessages);
    let mut provider = |_req: &[u8]| -> Option<Vec<u8>> { panic!("no provider call expected") };
    let events = drive(&mut s, first, &mut store, &mut provider);
    assert_eq!(events.len(), 1);
    match &events[0] {
        OutEvent::MessageUpdate(msgs) => {
            assert_eq!(msgs.len(), 3);
            assert_eq!(msgs[0].content, "m1");
            assert_eq!(msgs[0].id.as_deref(), Some("a"));
            assert_eq!(msgs[1].content, "m2");
            assert_eq!(msgs[1].id.as_deref(), Some("b"));
            assert_eq!(msgs[2].content, "m3");
            assert_eq!(msgs[2].id.as_deref(), Some("c"));
        }
        _ => panic!("expected a message update"),
    }
    // Head untouched by a read-only query.
    assert_eq!(s.chat.head.as_deref(), Some("c"));
}

#[test]
fn missing_parent_aborts_history() {
    let mut store = FakeStore::new();
    store.insert_record("c", "user", "m3", Some("gone"));
    let mut s = State::new(Some("c".to_string()));
    let first = s.handle_command(Command::GetMessages);
    let mut provider = |_req: &[u8]| -> Option<Vec<u8>> { panic!("no provider call expected") };
    let events = drive(&mut s, first, &mut store, &mut provider);
    assert_eq!(events.len(), 1);
    assert!(matches!(events[0], OutEvent::TurnAborted(TurnError::StoreMalformedResponse)));
}

#[test]
fn cyclic_parent_chain_is_history_corrupt() {
    let mut store = FakeStore::new();
    store.insert_record("a", "user", "loop", Some("a"));
    let mut s = State::new(Some("a".to_string()));
    let first = s.handle_command(Command::GetMessages);
    let mut provider = |_req: &[u8]| -> Option<Vec<u8>> { panic!("no provider call expected") };
    let events = drive(&mut s, first, &mut store, &mut provider);
    assert_eq!(events.len(), 1);
    assert!(matches!(events[0], OutEvent::TurnAborted(TurnError::HistoryCorrupt)));
}

#[test]
fn second_turn_chains_to_the_first() {
    let mut store = FakeStore::new();
    let mut s = State::new(None);
    let mut provider = |_req: &[u8]| Some(text_provider("r1"));
    let first = s.handle_command(Command::SendMessage("q1".to_string()));
    drive(&mut s, first, &mut store, &mut provider);
    assert_eq!(s.chat.head.as_deref(), Some("k1"));

    let mut provider2 = |req: &[u8]| {
        let v: Value = serde_json::from_slice(req).unwrap();
        assert_eq!(v["messages"].as_array().unwrap().len(), 3);
        Some(text_provider("r2"))
    };
    let first = s.handle_command(Command::SendMessage("q2".to_string()));
    let events = drive(&mut s, first, &mut store, &mut provider2);
    match &events[0] {
        OutEvent::MessageUpdate(msgs) => {
            assert_eq!(msgs[0].content, "q2");
            assert_eq!(msgs[0].parent.as_deref(), Some("k1"));
            assert_eq!(msgs[1].content, "r2");
            assert_eq!(msgs[1].parent.as_deref(), Some("k2"));
        }
        _ => panic!("expected a message update"),
    }
    assert_eq!(s.chat.head.as_deref(), Some("k3"));
    assert_eq!(store.entries.len(), 4);
}
