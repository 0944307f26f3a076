//! What holds of the controller across whole runs.
//!
//! The transition functions of [`crate::turn`] say what each single handler
//! does; the proof functions here say what follows for a conversation: the
//! controller's well-formedness is kept by every transition, a history walk
//! fed faithful store replies hands out exactly the parent chain of
//! [`crate::chain::chain_of`], and a successful turn ends with the head on
//! the assistant message, whose parent is the user message's key.

use vstd::prelude::*;

use crate::chain::chain_of;
use crate::codec::{get_reply_value, msg_parse};
use crate::completion::completion_request_spec;
use crate::message::{MessageView, stamp};
use crate::store::{fetch_reply_spec, persist_reply_spec};
use crate::turn::{
    ActionView, CommandView, MAX_HISTORY_DEPTH, OutEventView, PhaseView, StateView, StepView,
    WalkOriginView, next_on_command, next_on_provider, next_on_store,
};

verus! {

/// The controller's invariant.  Once a turn is past its first head advance,
/// the head stays on the user message until the assistant persist moves it;
/// the assistant message under persist points back at the user message.
pub open spec fn wf_state(s: StateView) -> bool {
    match s.phase {
        PhaseView::Idle => true,
        PhaseView::AwaitUserPersist { user } => {
            &&& user.id is None
            &&& user.parent == s.head
            &&& user.role == "user"@
        },
        PhaseView::AwaitHistoryFetch { origin, acc, pending } => match origin {
            WalkOriginView::Query => true,
            WalkOriginView::Turn(user) => {
                &&& user.id is Some
                &&& s.head == user.id
                &&& user.role == "user"@
            },
        },
        PhaseView::AwaitCompletion { user } => {
            &&& user.id is Some
            &&& s.head == user.id
            &&& user.role == "user"@
        },
        PhaseView::AwaitAssistantPersist { user, assistant } => {
            &&& user.id is Some
            &&& s.head == user.id
            &&& user.role == "user"@
            &&& assistant.parent == user.id
            &&& assistant.id is None
            &&& assistant.role == "assistant"@
        },
    }
}

/// Commands keep the invariant.
pub proof fn lemma_command_preserves_wf(s: StateView, cmd: CommandView)
    requires
        wf_state(s),
        s.phase is Idle,
    ensures
        wf_state(next_on_command(s, cmd).state),
{
}

/// Store replies keep the invariant.
pub proof fn lemma_store_reply_preserves_wf(s: StateView, resp: Option<Seq<u8>>)
    requires
        wf_state(s),
    ensures
        wf_state(next_on_store(s, resp).state),
{
}

/// Provider replies keep the invariant.
pub proof fn lemma_provider_reply_preserves_wf(s: StateView, resp: Option<Seq<u8>>)
    requires
        wf_state(s),
    ensures
        wf_state(next_on_provider(s, resp).state),
{
}

/// The end of a successful turn.  The head — already advanced once, to the
/// user message — advances a second time, to the assistant message's new
/// key; the controller is idle again; and the update event carries the user
/// message and the stamped assistant message, whose parent is the user
/// message's key.
pub proof fn lemma_turn_completion(s: StateView, resp: Option<Seq<u8>>)
    requires
        wf_state(s),
        s.phase is AwaitAssistantPersist,
        persist_reply_spec(resp) is Ok,
    ensures
        ({
            let step = next_on_store(s, resp);
            let id = persist_reply_spec(resp)->Ok_0;
            match s.phase {
                PhaseView::AwaitAssistantPersist { user, assistant } => {
                    &&& s.head == user.id
                    &&& step.state.head == Some(id)
                    &&& step.state.phase is Idle
                    &&& step.event == Some(
                        OutEventView::MessageUpdate(seq![user, stamp(assistant, id)]),
                    )
                    &&& stamp(assistant, id).parent == user.id
                },
                _ => false,
            }
        }),
{
}

/// A store reply that serves key `id` faithfully: its payload decodes to
/// exactly the message persisted under `id`.
pub open spec fn store_serves(
    store: Map<Seq<char>, MessageView>,
    id: Seq<char>,
    resp: Option<Seq<u8>>,
) -> bool {
    &&& store.dom().contains(id)
    &&& match resp {
        Some(bytes) => match get_reply_value(bytes) {
            Some(payload) => msg_parse(payload) == Some(
                (store[id].role, store[id].content, store[id].parent),
            ),
            None => false,
        },
        None => false,
    }
}

/// The walk portion of a run: store replies consumed in order until the
/// controller leaves the walking phase.
pub open spec fn run_walk(s: StateView, resps: Seq<Option<Seq<u8>>>) -> StepView
    decreases resps.len(),
{
    if resps.len() == 0 {
        StepView { state: s, action: ActionView::Noop, event: None }
    } else {
        let step = next_on_store(s, resps[0]);
        if step.state.phase is AwaitHistoryFetch {
            run_walk(step.state, resps.drop_first())
        } else {
            step
        }
    }
}

/// Reversing after one more element: the element moves to the front.
proof fn lemma_reverse_push(s: Seq<MessageView>, x: MessageView)
    ensures
        s.push(x).reverse() == seq![x] + s.reverse(),
{
    assert(s.push(x).reverse() =~= seq![x] + s.reverse());
}

/// History reconstruction returns the chain.  A walk standing on `pending`
/// with `acc` already fetched, where the chain under `pending` holds `t`
/// messages and every reply faithfully serves the key the walk asks for
/// (newest first: reply `i` serves the key of `t[t.len() - 1 - i]`), ends
/// after exactly `t.len()` replies with the full history `t + acc.reverse()`
/// — for a query as an update event, for a turn as the completion request.
pub proof fn lemma_walk_returns_chain(
    s: StateView,
    store: Map<Seq<char>, MessageView>,
    origin: WalkOriginView,
    acc: Seq<MessageView>,
    pending: Seq<char>,
    fuel: nat,
    resps: Seq<Option<Seq<u8>>>,
)
    requires
        s.phase == (PhaseView::AwaitHistoryFetch { origin, acc, pending }),
        chain_of(store, Some(pending), fuel) is Some,
        resps.len() == chain_of(store, Some(pending), fuel)->Some_0.len(),
        acc.len() + resps.len() <= MAX_HISTORY_DEPTH,
        forall|i: int|
            0 <= i < resps.len() ==> store_serves(
                store,
                chain_of(store, Some(pending), fuel)->Some_0[resps.len() - 1 - i].id->Some_0,
                resps[i],
            ),
    ensures
        ({
            let t = chain_of(store, Some(pending), fuel)->Some_0;
            let history = t + acc.reverse();
            let outcome = run_walk(s, resps);
            &&& outcome.state.head == s.head
            &&& match origin {
                WalkOriginView::Query => {
                    &&& outcome.state.phase is Idle
                    &&& outcome.action is Noop
                    &&& outcome.event == Some(OutEventView::MessageUpdate(history))
                },
                WalkOriginView::Turn(user) => {
                    &&& outcome.state.phase == (PhaseView::AwaitCompletion { user })
                    &&& outcome.action == ActionView::ToProvider(completion_request_spec(history))
                    &&& outcome.event is None
                },
            }
        }),
    decreases resps.len(),
{
    let t = chain_of(store, Some(pending), fuel)->Some_0;
    let m = store[pending];
    assert(t.len() >= 1);
    assert(t[t.len() - 1] == stamp(m, pending));
    assert(t[t.len() - 1].id->Some_0 == pending);
    assert(store_serves(store, pending, resps[0]));
    assert(fetch_reply_spec(resps[0], pending) == Ok::<MessageView, crate::store::StoreError>(
        stamp(m, pending),
    ));
    let step = next_on_store(s, resps[0]);
    lemma_reverse_push(acc, stamp(m, pending));
    match m.parent {
        None => {
            assert(chain_of(store, None, (fuel - 1) as nat) == Some(Seq::<MessageView>::empty()));
            assert(t =~= seq![stamp(m, pending)]);
            assert(resps.len() == 1);
            assert(acc.push(stamp(m, pending)).reverse() =~= t + acc.reverse());
            assert(run_walk(s, resps) == step);
        },
        Some(p) => {
            let t1 = chain_of(store, Some(p), (fuel - 1) as nat)->Some_0;
            assert(t == t1.push(stamp(m, pending)));
            assert(step.state.phase == (PhaseView::AwaitHistoryFetch {
                origin,
                acc: acc.push(stamp(m, pending)),
                pending: p,
            }));
            let resps1 = resps.drop_first();
            assert forall|i: int| 0 <= i < resps1.len() implies store_serves(
                store,
                t1[resps1.len() - 1 - i].id->Some_0,
                resps1[i],
            ) by {
                assert(t1[resps1.len() - 1 - i] == t[resps.len() - 1 - (i + 1)]);
                assert(resps1[i] == resps[i + 1]);
            }
            lemma_walk_returns_chain(
                step.state,
                store,
                origin,
                acc.push(stamp(m, pending)),
                p,
                (fuel - 1) as nat,
                resps1,
            );
            assert(t1 + acc.push(stamp(m, pending)).reverse() =~= t + acc.reverse());
            assert(run_walk(s, resps) == run_walk(step.state, resps1));
        },
    }
}

/// Put together: a read-only query on the head reached by `n` sequential
/// persists from an empty conversation, fed one faithful reply per persisted
/// message, hands out exactly those `n` messages, in creation order, each
/// stamped with its key.
pub proof fn lemma_query_after_sequential_persists(
    ids: Seq<Seq<char>>,
    msgs: Seq<MessageView>,
    resps: Seq<Option<Seq<u8>>>,
)
    requires
        crate::chain::sequential_persists(ids, msgs),
        1 <= ids.len() <= MAX_HISTORY_DEPTH,
        resps.len() == ids.len(),
        forall|i: int|
            0 <= i < resps.len() ==> store_serves(
                crate::chain::store_after(ids, msgs, ids.len()),
                ids[resps.len() - 1 - i],
                resps[i],
            ),
    ensures
        ({
            let n: nat = ids.len();
            let s0 = StateView { head: Some(ids[n - 1]), phase: PhaseView::Idle };
            let started = next_on_command(s0, CommandView::GetMessages);
            let outcome = run_walk(started.state, resps);
            &&& outcome.state.phase is Idle
            &&& outcome.state.head == Some(ids[n - 1])
            &&& outcome.event == Some(
                OutEventView::MessageUpdate(Seq::new(n, |i: int| stamp(msgs[i], ids[i]))),
            )
        }),
{
    let n: nat = ids.len();
    let store = crate::chain::store_after(ids, msgs, n);
    crate::chain::lemma_chain_after_sequential_persists(ids, msgs, n);
    let t = chain_of(store, Some(ids[n - 1]), n)->Some_0;
    let s0 = StateView { head: Some(ids[n - 1]), phase: PhaseView::Idle };
    let started = next_on_command(s0, CommandView::GetMessages);
    assert(started.state.phase == (PhaseView::AwaitHistoryFetch {
        origin: WalkOriginView::Query,
        acc: Seq::<MessageView>::empty(),
        pending: ids[n - 1],
    }));
    assert forall|i: int| 0 <= i < resps.len() implies store_serves(
        store,
        t[resps.len() - 1 - i].id->Some_0,
        resps[i],
    ) by {
        assert(t[resps.len() - 1 - i] == stamp(
            msgs[resps.len() - 1 - i],
            ids[resps.len() - 1 - i],
        ));
    }
    lemma_walk_returns_chain(
        started.state,
        store,
        WalkOriginView::Query,
        Seq::<MessageView>::empty(),
        ids[n - 1],
        n,
        resps,
    );
    assert(t + Seq::<MessageView>::empty().reverse() =~= t);
}

/// A whole successful turn, end to end.  From an idle controller, the
/// command builds the user message on the current head; the store's key
/// advances the head a first time; the walk over the chain under that key
/// ends at the completion call; the generated text becomes the assistant
/// message, whose parent is the user message's key; and the assistant's key
/// advances the head a second time.  The turn ends idle, emitting exactly
/// the two new messages with their assigned keys.
pub proof fn lemma_successful_turn(
    head0: Option<Seq<char>>,
    content: Seq<char>,
    reply_user: Option<Seq<u8>>,
    store: Map<Seq<char>, MessageView>,
    fuel: nat,
    resps: Seq<Option<Seq<u8>>>,
    reply_provider: Option<Seq<u8>>,
    reply_assistant: Option<Seq<u8>>,
)
    requires
        persist_reply_spec(reply_user) is Ok,
        chain_of(store, Some(persist_reply_spec(reply_user)->Ok_0), fuel) is Some,
        resps.len() == chain_of(
            store,
            Some(persist_reply_spec(reply_user)->Ok_0),
            fuel,
        )->Some_0.len(),
        resps.len() <= MAX_HISTORY_DEPTH,
        forall|i: int|
            0 <= i < resps.len() ==> store_serves(
                store,
                chain_of(
                    store,
                    Some(persist_reply_spec(reply_user)->Ok_0),
                    fuel,
                )->Some_0[resps.len() - 1 - i].id->Some_0,
                resps[i],
            ),
        crate::completion::completion_reply_spec(reply_provider) is Some,
        persist_reply_spec(reply_assistant) is Ok,
    ensures
        ({
            let s0 = StateView { head: head0, phase: PhaseView::Idle };
            let user_id = persist_reply_spec(reply_user)->Ok_0;
            let assistant_id = persist_reply_spec(reply_assistant)->Ok_0;
            let text = crate::completion::completion_reply_spec(reply_provider)->Some_0;
            let user = MessageView {
                role: "user"@,
                content,
                parent: head0,
                id: Some(user_id),
            };
            let assistant = MessageView {
                role: "assistant"@,
                content: text,
                parent: Some(user_id),
                id: Some(assistant_id),
            };
            let step1 = next_on_command(s0, CommandView::SendMessage(content));
            let step2 = next_on_store(step1.state, reply_user);
            let walked = run_walk(step2.state, resps);
            let step3 = next_on_provider(walked.state, reply_provider);
            let step4 = next_on_store(step3.state, reply_assistant);
            &&& step1.state.head == head0
            &&& step2.state.head == Some(user_id)
            &&& walked.state.head == Some(user_id)
            &&& step3.state.head == Some(user_id)
            &&& step4.state.head == Some(assistant_id)
            &&& step4.state.phase is Idle
            &&& step4.event == Some(OutEventView::MessageUpdate(seq![user, assistant]))
        }),
{
    let s0 = StateView { head: head0, phase: PhaseView::Idle };
    let user_id = persist_reply_spec(reply_user)->Ok_0;
    let user0 = MessageView { role: "user"@, content, parent: head0, id: None };
    let user = stamp(user0, user_id);
    let step1 = next_on_command(s0, CommandView::SendMessage(content));
    let step2 = next_on_store(step1.state, reply_user);
    assert(step2.state.phase == (PhaseView::AwaitHistoryFetch {
        origin: WalkOriginView::Turn(user),
        acc: Seq::<MessageView>::empty(),
        pending: user_id,
    }));
    lemma_walk_returns_chain(
        step2.state,
        store,
        WalkOriginView::Turn(user),
        Seq::<MessageView>::empty(),
        user_id,
        fuel,
        resps,
    );
    let walked = run_walk(step2.state, resps);
    assert(walked.state.phase == (PhaseView::AwaitCompletion { user }));
    let step3 = next_on_provider(walked.state, reply_provider);
    let step4 = next_on_store(step3.state, reply_assistant);
    let assistant_id = persist_reply_spec(reply_assistant)->Ok_0;
    let text = crate::completion::completion_reply_spec(reply_provider)->Some_0;
    let assistant0 = MessageView {
        role: "assistant"@,
        content: text,
        parent: Some(user_id),
        id: None,
    };
    assert(step3.state.phase == (PhaseView::AwaitAssistantPersist {
        user,
        assistant: assistant0,
    }));
    assert(step4.event == Some(
        OutEventView::MessageUpdate(seq![user, stamp(assistant0, assistant_id)]),
    ));
}

} // verus!
