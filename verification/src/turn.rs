//! The Turn Controller: the state machine that orchestrates one full
//! exchange.
//!
//! A turn runs `persist user message → advance head → reconstruct history →
//! generate → persist assistant message → advance head`, each step a round
//! trip to an external collaborator.  The controller itself never performs a
//! round trip: a handler consumes a command or a reply, mutates the state,
//! and returns the next request to send together with any outbound event.
//! The surrounding transport performs the send and hands the reply back.
//!
//! The first error aborts the rest of the turn with no compensation: work
//! already performed — a persisted user message, an advanced head — survives.
//! Every handler is proved to implement the spec-level transition functions
//! `next_on_command`, `next_on_store` and `next_on_provider` exactly.

use vstd::prelude::*;
use vstd::pervasive::unreached;

use crate::codec::{command_fields_of, get_request_json, opt_bytes_view};
use crate::completion::{build_completion_request, completion_reply_spec, completion_request_spec,
    parse_completion_response};
use crate::message::{Message, MessageView, clone_opt_string, msgs_view, opt_view, stamp};
use crate::store::{StoreError, fetch_reply_spec, fetch_request, parse_fetch_reply,
    parse_persist_reply, persist_reply_spec, persist_request, persist_request_spec};

verus! {

/// The most parent fetches one history reconstruction may make.  A parent
/// chain longer than this is treated as corrupt (a cycle would otherwise
/// never terminate).
pub const MAX_HISTORY_DEPTH: usize = 4096;

/// A decoded inbound command.  Anything unrecognized — including a
/// `send_message` without text content — is `Unknown`, and `Unknown` is a
/// no-op, not an error.
pub enum Command {
    SendMessage(String),
    GetMessages,
    Unknown,
}

/// The view of a [`Command`].
pub enum CommandView {
    SendMessage(Seq<char>),
    GetMessages,
    Unknown,
}

impl View for Command {
    type V = CommandView;

    open spec fn view(&self) -> CommandView {
        match self {
            Command::SendMessage(content) => CommandView::SendMessage(content@),
            Command::GetMessages => CommandView::GetMessages,
            Command::Unknown => CommandView::Unknown,
        }
    }
}

/// Why a turn was abandoned.
#[derive(Clone, Copy, Debug, PartialEq, Eq, Structural)]
pub enum TurnError {
    /// A store round trip got no reply.
    StoreUnavailable,
    /// A store reply had the wrong shape.
    StoreMalformedResponse,
    /// The parent chain exceeded [`MAX_HISTORY_DEPTH`].
    HistoryCorrupt,
    /// The completion call failed or carried no text.
    GenerationFailure,
}

/// The turn error a store error aborts with.
pub open spec fn store_error_spec(e: StoreError) -> TurnError {
    match e {
        StoreError::Unavailable => TurnError::StoreUnavailable,
        StoreError::MalformedResponse => TurnError::StoreMalformedResponse,
    }
}

/// The turn error a store error aborts with.
pub fn store_error_of(e: StoreError) -> (r: TurnError)
    ensures
        r == store_error_spec(e),
{
    match e {
        StoreError::Unavailable => TurnError::StoreUnavailable,
        StoreError::MalformedResponse => TurnError::StoreMalformedResponse,
    }
}

/// What a history walk was started for: a turn that still holds its user
/// message, or a plain read-only query.
pub enum WalkOrigin {
    Turn(Message),
    Query,
}

/// The view of a [`WalkOrigin`].
pub enum WalkOriginView {
    Turn(MessageView),
    Query,
}

impl View for WalkOrigin {
    type V = WalkOriginView;

    open spec fn view(&self) -> WalkOriginView {
        match self {
            WalkOrigin::Turn(user) => WalkOriginView::Turn(user@),
            WalkOrigin::Query => WalkOriginView::Query,
        }
    }
}

/// Where the controller stands: idle, or waiting for one specific reply.
pub enum Phase {
    /// No work in flight.
    Idle,
    /// The user message was sent to the store; waiting for its key.
    AwaitUserPersist { user: Message },
    /// Walking the parent chain: `acc` holds what was fetched so far, newest
    /// first, and `pending` is the key whose fetch is in flight.
    AwaitHistoryFetch { origin: WalkOrigin, acc: Vec<Message>, pending: String },
    /// The history went to the completion provider; waiting for the text.
    AwaitCompletion { user: Message },
    /// The assistant message was sent to the store; waiting for its key.
    AwaitAssistantPersist { user: Message, assistant: Message },
}

/// The view of a [`Phase`].
pub enum PhaseView {
    Idle,
    AwaitUserPersist { user: MessageView },
    AwaitHistoryFetch { origin: WalkOriginView, acc: Seq<MessageView>, pending: Seq<char> },
    AwaitCompletion { user: MessageView },
    AwaitAssistantPersist { user: MessageView, assistant: MessageView },
}

impl View for Phase {
    type V = PhaseView;

    open spec fn view(&self) -> PhaseView {
        match self {
            Phase::Idle => PhaseView::Idle,
            Phase::AwaitUserPersist { user } => PhaseView::AwaitUserPersist { user: user@ },
            Phase::AwaitHistoryFetch { origin, acc, pending } => PhaseView::AwaitHistoryFetch {
                origin: origin@,
                acc: msgs_view(acc@),
                pending: pending@,
            },
            Phase::AwaitCompletion { user } => PhaseView::AwaitCompletion { user: user@ },
            Phase::AwaitAssistantPersist { user, assistant } => PhaseView::AwaitAssistantPersist {
                user: user@,
                assistant: assistant@,
            },
        }
    }
}

/// The single pointer to the most recently persisted message.  A
/// conversation whose head is absent is empty.
pub struct Chat {
    pub head: Option<String>,
}

/// The controller's whole state: the conversation head and the phase of the
/// work in flight.
pub struct State {
    pub chat: Chat,
    pub phase: Phase,
}

/// The view of a [`State`].
pub struct StateView {
    pub head: Option<Seq<char>>,
    pub phase: PhaseView,
}

impl View for State {
    type V = StateView;

    open spec fn view(&self) -> StateView {
        StateView { head: opt_view(self.chat.head), phase: self.phase@ }
    }
}

/// The next request the transport must perform for the controller, if any.
pub enum Action {
    /// Nothing to send.
    Noop,
    /// Send these bytes to the store actor and hand back its reply.
    ToStore(Vec<u8>),
    /// Send these bytes to the completion provider and hand back its reply.
    ToProvider(Vec<u8>),
}

/// The view of an [`Action`].
pub enum ActionView {
    Noop,
    ToStore(Seq<u8>),
    ToProvider(Seq<u8>),
}

impl View for Action {
    type V = ActionView;

    open spec fn view(&self) -> ActionView {
        match self {
            Action::Noop => ActionView::Noop,
            Action::ToStore(bytes) => ActionView::ToStore(bytes@),
            Action::ToProvider(bytes) => ActionView::ToProvider(bytes@),
        }
    }
}

/// An outbound event for the attached clients.
pub enum OutEvent {
    /// One or two new messages, or a full chronological history.
    MessageUpdate(Vec<Message>),
    /// A turn was abandoned; work already performed survives.
    TurnAborted(TurnError),
}

/// The view of an [`OutEvent`].
pub enum OutEventView {
    MessageUpdate(Seq<MessageView>),
    TurnAborted(TurnError),
}

impl View for OutEvent {
    type V = OutEventView;

    open spec fn view(&self) -> OutEventView {
        match self {
            OutEvent::MessageUpdate(msgs) => OutEventView::MessageUpdate(msgs_view(msgs@)),
            OutEvent::TurnAborted(e) => OutEventView::TurnAborted(*e),
        }
    }
}

/// The view of an optional outbound event.
pub open spec fn opt_event_view(o: Option<OutEvent>) -> Option<OutEventView> {
    match o {
        Some(e) => Some(e@),
        None => None,
    }
}

/// One spec-level transition: the state after it, the request it asks the
/// transport to perform, and the event it emits.
pub struct StepView {
    pub state: StateView,
    pub action: ActionView,
    pub event: Option<OutEventView>,
}

/// An abandoned turn: back to idle, nothing to send, the error reported.
/// The head keeps whatever value it had — an advance is never rolled back.
pub open spec fn abort_step(s: StateView, e: TurnError) -> StepView {
    StepView {
        state: StateView { head: s.head, phase: PhaseView::Idle },
        action: ActionView::Noop,
        event: Some(OutEventView::TurnAborted(e)),
    }
}

/// What a command does when the controller is idle.
pub open spec fn next_on_command(s: StateView, cmd: CommandView) -> StepView {
    match cmd {
        CommandView::SendMessage(content) => {
            let user = MessageView { role: "user"@, content, parent: s.head, id: None };
            StepView {
                state: StateView {
                    head: s.head,
                    phase: PhaseView::AwaitUserPersist { user },
                },
                action: ActionView::ToStore(persist_request_spec(user)),
                event: None,
            }
        },
        CommandView::GetMessages => match s.head {
            None => StepView {
                state: s,
                action: ActionView::Noop,
                event: Some(OutEventView::MessageUpdate(Seq::empty())),
            },
            Some(h) => StepView {
                state: StateView {
                    head: s.head,
                    phase: PhaseView::AwaitHistoryFetch {
                        origin: WalkOriginView::Query,
                        acc: Seq::empty(),
                        pending: h,
                    },
                },
                action: ActionView::ToStore(get_request_json(h)),
                event: None,
            },
        },
        CommandView::Unknown => StepView { state: s, action: ActionView::Noop, event: None },
    }
}

/// What a store reply does, by the phase that awaits it.
pub open spec fn next_on_store(s: StateView, resp: Option<Seq<u8>>) -> StepView {
    match s.phase {
        PhaseView::AwaitUserPersist { user } => match persist_reply_spec(resp) {
            Err(e) => abort_step(s, store_error_spec(e)),
            Ok(id) => StepView {
                state: StateView {
                    head: Some(id),
                    phase: PhaseView::AwaitHistoryFetch {
                        origin: WalkOriginView::Turn(stamp(user, id)),
                        acc: Seq::empty(),
                        pending: id,
                    },
                },
                action: ActionView::ToStore(get_request_json(id)),
                event: None,
            },
        },
        PhaseView::AwaitHistoryFetch { origin, acc, pending } => match fetch_reply_spec(
            resp,
            pending,
        ) {
            Err(e) => abort_step(s, store_error_spec(e)),
            Ok(m) => if acc.len() >= MAX_HISTORY_DEPTH {
                abort_step(s, TurnError::HistoryCorrupt)
            } else {
                match m.parent {
                    Some(p) => StepView {
                        state: StateView {
                            head: s.head,
                            phase: PhaseView::AwaitHistoryFetch {
                                origin,
                                acc: acc.push(m),
                                pending: p,
                            },
                        },
                        action: ActionView::ToStore(get_request_json(p)),
                        event: None,
                    },
                    None => {
                        let history = acc.push(m).reverse();
                        match origin {
                            WalkOriginView::Query => StepView {
                                state: StateView { head: s.head, phase: PhaseView::Idle },
                                action: ActionView::Noop,
                                event: Some(OutEventView::MessageUpdate(history)),
                            },
                            WalkOriginView::Turn(user) => StepView {
                                state: StateView {
                                    head: s.head,
                                    phase: PhaseView::AwaitCompletion { user },
                                },
                                action: ActionView::ToProvider(completion_request_spec(history)),
                                event: None,
                            },
                        }
                    },
                }
            },
        },
        PhaseView::AwaitAssistantPersist { user, assistant } => match persist_reply_spec(resp) {
            Err(e) => abort_step(s, store_error_spec(e)),
            Ok(id) => StepView {
                state: StateView { head: Some(id), phase: PhaseView::Idle },
                action: ActionView::Noop,
                event: Some(OutEventView::MessageUpdate(seq![user, stamp(assistant, id)])),
            },
        },
        _ => StepView { state: s, action: ActionView::Noop, event: None },
    }
}

/// What a provider reply does: the assistant message is built from the
/// generated text, its parent the user message's key, and goes to the store.
pub open spec fn next_on_provider(s: StateView, resp: Option<Seq<u8>>) -> StepView {
    match s.phase {
        PhaseView::AwaitCompletion { user } => match completion_reply_spec(resp) {
            None => abort_step(s, TurnError::GenerationFailure),
            Some(text) => {
                let assistant = MessageView {
                    role: "assistant"@,
                    content: text,
                    parent: user.id,
                    id: None,
                };
                StepView {
                    state: StateView {
                        head: s.head,
                        phase: PhaseView::AwaitAssistantPersist { user, assistant },
                    },
                    action: ActionView::ToStore(persist_request_spec(assistant)),
                    event: None,
                }
            },
        },
        _ => StepView { state: s, action: ActionView::Noop, event: None },
    }
}

/// The phases in which a store reply is expected.
pub open spec fn awaiting_store(p: PhaseView) -> bool {
    ||| p is AwaitUserPersist
    ||| p is AwaitHistoryFetch
    ||| p is AwaitAssistantPersist
}

/// The handler result matches the spec-level step.
pub open spec fn implements_step(s: State, r: (Action, Option<OutEvent>), step: StepView) -> bool {
    &&& s@ == step.state
    &&& r.0@ == step.action
    &&& opt_event_view(r.1) == step.event
}

impl State {
    /// A controller for a conversation whose head is `head` — absent for a
    /// new conversation, or a previously saved key to resume an old one.
    pub fn new(head: Option<String>) -> (r: State)
        ensures
            r@ == (StateView { head: opt_view(head), phase: PhaseView::Idle }),
    {
        State { chat: Chat { head }, phase: Phase::Idle }
    }

    /// Advance the conversation head to a freshly assigned key.  This is the
    /// write that is never rolled back.
    pub fn update_head(&mut self, message_id: String)
        ensures
            final(self)@ == (StateView {
                head: Some(message_id@),
                phase: old(self)@.phase,
            }),
    {
        self.chat.head = Some(message_id);
    }

    /// Begin reconstructing the chronological history from the current head:
    /// with no head the history is empty at once; otherwise the root fetch
    /// goes out and the walk is in flight.
    pub fn get_message_history(&mut self) -> (r: (Action, Option<OutEvent>))
        requires
            old(self)@.phase is Idle,
        ensures
            implements_step(*final(self), r, next_on_command(old(self)@, CommandView::GetMessages)),
    {
        match &self.chat.head {
            None => {
                let empty: Vec<Message> = Vec::new();
                proof {
                    assert(msgs_view(empty@) =~= Seq::<MessageView>::empty());
                }
                (Action::Noop, Some(OutEvent::MessageUpdate(empty)))
            },
            Some(h) => {
                let pending = h.clone();
                let req = fetch_request(&pending);
                let acc: Vec<Message> = Vec::new();
                proof {
                    assert(msgs_view(acc@) =~= Seq::<MessageView>::empty());
                }
                self.phase = Phase::AwaitHistoryFetch {
                    origin: WalkOrigin::Query,
                    acc,
                    pending,
                };
                (Action::ToStore(req), None)
            },
        }
    }

    /// Handle one inbound command.  Sending a message starts a turn: the
    /// user message is built with the current head as its parent and goes to
    /// the store.  Asking for the messages starts a read-only history walk.
    /// An unknown command changes nothing and emits nothing.
    pub fn handle_command(&mut self, cmd: Command) -> (r: (Action, Option<OutEvent>))
        requires
            old(self)@.phase is Idle,
        ensures
            implements_step(*final(self), r, next_on_command(old(self)@, cmd@)),
    {
        match cmd {
            Command::SendMessage(content) => {
                let user = Message::new(
                    "user".to_owned(),
                    content,
                    clone_opt_string(&self.chat.head),
                );
                let req = persist_request(&user);
                self.phase = Phase::AwaitUserPersist { user };
                (Action::ToStore(req), None)
            },
            Command::GetMessages => self.get_message_history(),
            Command::Unknown => (Action::Noop, None),
        }
    }

    /// Handle the store's reply to the request in flight.
    pub fn handle_store_reply(&mut self, resp: Option<Vec<u8>>) -> (r: (Action, Option<OutEvent>))
        requires
            awaiting_store(old(self)@.phase),
        ensures
            implements_step(*final(self), r, next_on_store(old(self)@, opt_bytes_view(resp))),
    {
        let mut phase = Phase::Idle;
        core::mem::swap(&mut phase, &mut self.phase);
        match phase {
            Phase::AwaitUserPersist { user } => match parse_persist_reply(&resp) {
                Err(e) => (Action::Noop, Some(OutEvent::TurnAborted(store_error_of(e)))),
                Ok(id) => {
                    let stamped = user.with_id(id.clone());
                    let req = fetch_request(&id);
                    let acc: Vec<Message> = Vec::new();
                    proof {
                        assert(msgs_view(acc@) =~= Seq::<MessageView>::empty());
                    }
                    self.chat.head = Some(id.clone());
                    self.phase = Phase::AwaitHistoryFetch {
                        origin: WalkOrigin::Turn(stamped),
                        acc,
                        pending: id,
                    };
                    (Action::ToStore(req), None)
                },
            },
            Phase::AwaitHistoryFetch { origin, acc, pending } => {
                let mut acc = acc;
                match parse_fetch_reply(&resp, pending) {
                    Err(e) => (Action::Noop, Some(OutEvent::TurnAborted(store_error_of(e)))),
                    Ok(m) => {
                        if acc.len() >= MAX_HISTORY_DEPTH {
                            (Action::Noop, Some(OutEvent::TurnAborted(TurnError::HistoryCorrupt)))
                        } else {
                            let parent = clone_opt_string(&m.parent);
                            let ghost acc_before = msgs_view(acc@);
                            let ghost m_view = m@;
                            acc.push(m);
                            proof {
                                assert(msgs_view(acc@) =~= acc_before.push(m_view));
                            }
                            match parent {
                                Some(p) => {
                                    let req = fetch_request(&p);
                                    self.phase = Phase::AwaitHistoryFetch {
                                        origin,
                                        acc,
                                        pending: p,
                                    };
                                    (Action::ToStore(req), None)
                                },
                                None => {
                                    let history = reversed_messages(acc);
                                    match origin {
                                        WalkOrigin::Query => (
                                            Action::Noop,
                                            Some(OutEvent::MessageUpdate(history)),
                                        ),
                                        WalkOrigin::Turn(user) => {
                                            let req = build_completion_request(&history);
                                            self.phase = Phase::AwaitCompletion { user };
                                            (Action::ToProvider(req), None)
                                        },
                                    }
                                },
                            }
                        }
                    },
                }
            },
            Phase::AwaitAssistantPersist { user, assistant } => match parse_persist_reply(&resp) {
                Err(e) => (Action::Noop, Some(OutEvent::TurnAborted(store_error_of(e)))),
                Ok(id) => {
                    self.chat.head = Some(id.clone());
                    let stamped = assistant.with_id(id);
                    let ghost user_view = user@;
                    let ghost stamped_view = stamped@;
                    let out = vec![user, stamped];
                    proof {
                        assert(msgs_view(out@) =~= seq![user_view, stamped_view]);
                    }
                    (Action::Noop, Some(OutEvent::MessageUpdate(out)))
                },
            },
            _ => unreached(),
        }
    }

    /// Handle the completion provider's reply: on text, the assistant
    /// message is built with the user message's key as its parent and goes
    /// to the store; on anything else the turn is abandoned.
    pub fn handle_provider_reply(&mut self, resp: Option<Vec<u8>>) -> (r: (
        Action,
        Option<OutEvent>,
    ))
        requires
            old(self)@.phase is AwaitCompletion,
        ensures
            implements_step(*final(self), r, next_on_provider(old(self)@, opt_bytes_view(resp))),
    {
        let mut phase = Phase::Idle;
        core::mem::swap(&mut phase, &mut self.phase);
        match phase {
            Phase::AwaitCompletion { user } => match parse_completion_response(&resp) {
                None => (Action::Noop, Some(OutEvent::TurnAborted(TurnError::GenerationFailure))),
                Some(text) => {
                    let assistant = Message::new(
                        "assistant".to_owned(),
                        text,
                        clone_opt_string(&user.id),
                    );
                    let req = persist_request(&assistant);
                    self.phase = Phase::AwaitAssistantPersist { user, assistant };
                    (Action::ToStore(req), None)
                },
            },
            _ => unreached(),
        }
    }
}

/// The messages in reverse order: the walk fetches newest first, the
/// history is handed out oldest first.
fn reversed_messages(v: Vec<Message>) -> (r: Vec<Message>)
    ensures
        msgs_view(r@) == msgs_view(v@).reverse(),
{
    let mut r: Vec<Message> = Vec::new();
    let mut i: usize = v.len();
    while i > 0
        invariant
            i <= v@.len(),
            r@.len() == v@.len() - i,
            forall|j: int| 0 <= j < r@.len() ==> r@[j]@ == v@[v@.len() - 1 - j]@,
        decreases i,
    {
        i -= 1;
        r.push(crate::message::clone_message(&v[i]));
    }
    proof {
        assert(msgs_view(r@) =~= msgs_view(v@).reverse());
    }
    r
}

/// The command a piece of inbound text means, classified from its `type`
/// and `content` fields.
pub open spec fn classify_spec(
    fields: Option<(Option<Seq<char>>, Option<Seq<char>>)>,
) -> CommandView {
    match fields {
        Some((Some(ty), content)) => if ty == "send_message"@ {
            match content {
                Some(c) => CommandView::SendMessage(c),
                None => CommandView::Unknown,
            }
        } else if ty == "get_messages"@ {
            CommandView::GetMessages
        } else {
            CommandView::Unknown
        },
        _ => CommandView::Unknown,
    }
}

/// Decode one inbound command text into the closed command set.
pub fn parse_command(text: &str) -> (r: Command)
    ensures
        r@ == classify_spec(command_fields_of(text@)),
{
    match crate::codec::parse_command_fields(text) {
        None => Command::Unknown,
        Some((ty, content)) => match ty {
            None => Command::Unknown,
            Some(t) => {
                if t == "send_message".to_owned() {
                    match content {
                        Some(c) => Command::SendMessage(c),
                        None => Command::Unknown,
                    }
                } else if t == "get_messages".to_owned() {
                    Command::GetMessages
                } else {
                    Command::Unknown
                }
            },
        },
    }
}

} // verus!
