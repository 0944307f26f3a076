//! The append-only record type exchanged with the store.

use vstd::prelude::*;

verus! {

/// One record of a conversation.  `role` and `content` are opaque text.
/// `parent` names the message that was the conversation head when this one was
/// created; the root of a conversation has `parent` absent.  `id` is the key
/// the store assigned at persist time and is absent until then.
#[derive(Debug)]
pub struct Message {
    pub role: String,
    pub content: String,
    pub parent: Option<String>,
    pub id: Option<String>,
}

/// The mathematical value of a [`Message`]: its fields as character sequences.
pub struct MessageView {
    pub role: Seq<char>,
    pub content: Seq<char>,
    pub parent: Option<Seq<char>>,
    pub id: Option<Seq<char>>,
}

/// The view of an optional string.
pub open spec fn opt_view(o: Option<String>) -> Option<Seq<char>> {
    match o {
        Some(s) => Some(s@),
        None => None,
    }
}

impl View for Message {
    type V = MessageView;

    open spec fn view(&self) -> MessageView {
        MessageView {
            role: self.role@,
            content: self.content@,
            parent: opt_view(self.parent),
            id: opt_view(self.id),
        }
    }
}

/// The message as the store hands it back: the same fields with `id` set to
/// the key it was fetched under.
pub open spec fn stamp(m: MessageView, id: Seq<char>) -> MessageView {
    MessageView { id: Some(id), ..m }
}

/// The views of a sequence of messages.
pub open spec fn msgs_view(s: Seq<Message>) -> Seq<MessageView> {
    s.map_values(|m: Message| m@)
}

impl Message {
    /// A fresh message, not yet persisted: no id.
    pub fn new(role: String, content: String, parent: Option<String>) -> (r: Message)
        ensures
            r@ == (MessageView {
                role: role@,
                content: content@,
                parent: opt_view(parent),
                id: None,
            }),
    {
        Message { role, content, parent, id: None }
    }

    /// The same message stamped with the key the store assigned to it.
    pub fn with_id(self, id: String) -> (r: Message)
        ensures
            r@ == stamp(self@, id@),
    {
        Message { id: Some(id), ..self }
    }
}

/// A copy of an optional string with the same view.
pub fn clone_opt_string(o: &Option<String>) -> (r: Option<String>)
    ensures
        opt_view(r) == opt_view(*o),
{
    match o {
        Some(s) => Some(s.clone()),
        None => None,
    }
}

/// A copy of a message with the same view.
pub fn clone_message(m: &Message) -> (r: Message)
    ensures
        r@ == m@,
{
    Message {
        role: m.role.clone(),
        content: m.content.clone(),
        parent: clone_opt_string(&m.parent),
        id: clone_opt_string(&m.id),
    }
}

} // verus!
