//! The parent-chain model of a conversation, and what holds of it.
//!
//! A well-behaved store is a map from keys to the messages persisted under
//! them.  `chain_of` is what history reconstruction means against such a
//! store: the messages reachable from the head by parent links, oldest
//! first, each stamped with its key.  The proof functions here are the
//! general laws of the library: a persist extends the chain by exactly one
//! message at the end, `n` sequential persists from an empty conversation
//! make a chain of exactly those `n` messages in creation order, and a
//! successful turn grows the chain by exactly two.

use vstd::prelude::*;

use crate::message::{MessageView, stamp};

verus! {

/// The history that a faithful walk from `head` yields against `store`:
/// the reachable messages oldest first, each stamped with its key; nothing
/// when a key is missing or the chain is longer than `fuel`.
pub open spec fn chain_of(
    store: Map<Seq<char>, MessageView>,
    head: Option<Seq<char>>,
    fuel: nat,
) -> Option<Seq<MessageView>>
    decreases fuel,
{
    match head {
        None => Some(Seq::empty()),
        Some(id) => if fuel == 0 {
            None
        } else if !store.dom().contains(id) {
            None
        } else {
            match chain_of(store, store[id].parent, (fuel - 1) as nat) {
                None => None,
                Some(rest) => Some(rest.push(stamp(store[id], id))),
            }
        },
    }
}

/// An empty conversation has an empty history, against any store.
pub proof fn lemma_empty_history(store: Map<Seq<char>, MessageView>, fuel: nat)
    ensures
        chain_of(store, None, fuel) == Some(Seq::<MessageView>::empty()),
{
}

/// A chain that exists is untouched by persisting under a fresh key: the
/// walk never looks that key up.
pub proof fn lemma_chain_unaffected_by_fresh(
    store: Map<Seq<char>, MessageView>,
    head: Option<Seq<char>>,
    fuel: nat,
    k: Seq<char>,
    m: MessageView,
)
    requires
        chain_of(store, head, fuel) is Some,
        !store.dom().contains(k),
    ensures
        chain_of(store.insert(k, m), head, fuel) == chain_of(store, head, fuel),
    decreases fuel,
{
    match head {
        None => {},
        Some(id) => {
            assert(store.dom().contains(id));
            assert(id != k);
            assert(store.insert(k, m)[id] == store[id]);
            lemma_chain_unaffected_by_fresh(store, store[id].parent, (fuel - 1) as nat, k, m);
        },
    }
}

/// Persisting one message whose parent is the current head, under a fresh
/// key, extends the chain by exactly that message at the end.
pub proof fn lemma_persist_extends_chain(
    store: Map<Seq<char>, MessageView>,
    head: Option<Seq<char>>,
    fuel: nat,
    k: Seq<char>,
    m: MessageView,
)
    requires
        chain_of(store, head, fuel) is Some,
        !store.dom().contains(k),
        m.parent == head,
    ensures
        chain_of(store.insert(k, m), Some(k), fuel + 1) == Some(
            chain_of(store, head, fuel)->Some_0.push(stamp(m, k)),
        ),
{
    lemma_chain_unaffected_by_fresh(store, head, fuel, k, m);
    assert(store.insert(k, m)[k] == m);
}

/// A successful turn grows the conversation by exactly two messages: first
/// the user message, whose parent is the old head, then the assistant
/// message, whose parent is the user message's key — and the new head is the
/// assistant message's key.
pub proof fn lemma_turn_extends_chain_by_two(
    store: Map<Seq<char>, MessageView>,
    head: Option<Seq<char>>,
    fuel: nat,
    user_id: Seq<char>,
    user: MessageView,
    assistant_id: Seq<char>,
    assistant: MessageView,
)
    requires
        chain_of(store, head, fuel) is Some,
        !store.dom().contains(user_id),
        !store.dom().contains(assistant_id),
        assistant_id != user_id,
        user.parent == head,
        assistant.parent == Some(user_id),
    ensures
        ({
            let before = chain_of(store, head, fuel)->Some_0;
            let after = chain_of(
                store.insert(user_id, user).insert(assistant_id, assistant),
                Some(assistant_id),
                fuel + 2,
            );
            after == Some(before.push(stamp(user, user_id)).push(stamp(assistant, assistant_id)))
                && after->Some_0.len() == before.len() + 2
        }),
{
    lemma_persist_extends_chain(store, head, fuel, user_id, user);
    lemma_persist_extends_chain(
        store.insert(user_id, user),
        Some(user_id),
        fuel + 1,
        assistant_id,
        assistant,
    );
}

/// The store that holds the first `n` of a run of persists: key `ids[i]`
/// maps to message `msgs[i]`.
pub open spec fn store_after(
    ids: Seq<Seq<char>>,
    msgs: Seq<MessageView>,
    n: nat,
) -> Map<Seq<char>, MessageView>
    decreases n,
{
    if n == 0 {
        Map::empty()
    } else {
        store_after(ids, msgs, (n - 1) as nat).insert(ids[n - 1], msgs[n - 1])
    }
}

/// A run of sequential persists: distinct keys, and each message's parent is
/// the key the persist before it was assigned — the first has none.
pub open spec fn sequential_persists(ids: Seq<Seq<char>>, msgs: Seq<MessageView>) -> bool {
    &&& ids.len() == msgs.len()
    &&& (forall|i: int, j: int| 0 <= i < j < ids.len() ==> ids[i] != ids[j])
    &&& (forall|i: int|
        0 <= i < msgs.len() ==> msgs[i].parent == (if i == 0 {
            None::<Seq<char>>
        } else {
            Some(ids[i - 1])
        }))
}

/// What `store_after` holds: exactly the first `n` keys.
pub proof fn lemma_store_after_dom(ids: Seq<Seq<char>>, msgs: Seq<MessageView>, n: nat)
    requires
        n <= ids.len(),
    ensures
        forall|k: Seq<char>|
            store_after(ids, msgs, n).dom().contains(k) <==> (exists|i: int|
                0 <= i < n && ids[i] == k),
    decreases n,
{
    if n > 0 {
        let n1: nat = (n - 1) as nat;
        lemma_store_after_dom(ids, msgs, n1);
        assert forall|k: Seq<char>| store_after(ids, msgs, n).dom().contains(k) implies (exists|
            i: int,
        |
            0 <= i < n && ids[i] == k) by {
            if k == ids[n - 1] {
                assert(0 <= n - 1 < n && ids[n - 1] == k);
            } else {
                assert(store_after(ids, msgs, n1).dom().contains(k));
                let i: int = choose|i: int| 0 <= i < n1 && ids[i] == k;
                assert(0 <= i < n && ids[i] == k);
            }
        }
        assert forall|k: Seq<char>| (exists|i: int| 0 <= i < n && ids[i] == k) implies store_after(
            ids,
            msgs,
            n,
        ).dom().contains(k) by {
            let i: int = choose|i: int| 0 <= i < n && ids[i] == k;
            if i < n - 1 {
                assert(0 <= i < n1 && ids[i] == k);
                assert(store_after(ids, msgs, n1).dom().contains(k));
            }
        }
    }
}

/// The head reached by `n` sequential persists from an empty conversation
/// has a history of exactly those `n` messages, in creation order, each
/// stamped with the key its persist was assigned.
pub proof fn lemma_chain_after_sequential_persists(
    ids: Seq<Seq<char>>,
    msgs: Seq<MessageView>,
    n: nat,
)
    requires
        sequential_persists(ids, msgs),
        n <= ids.len(),
    ensures
        chain_of(
            store_after(ids, msgs, n),
            if n == 0 {
                None
            } else {
                Some(ids[n - 1])
            },
            n,
        ) == Some(Seq::new(n, |i: int| stamp(msgs[i], ids[i]))),
    decreases n,
{
    if n == 0 {
        assert(Seq::new(0, |i: int| stamp(msgs[i], ids[i])) =~= Seq::<MessageView>::empty());
    } else {
        let n1: nat = (n - 1) as nat;
        lemma_chain_after_sequential_persists(ids, msgs, n1);
        lemma_store_after_dom(ids, msgs, n1);
        let prev_head: Option<Seq<char>> = if n1 == 0 {
            None
        } else {
            Some(ids[n1 - 1])
        };
        assert(!store_after(ids, msgs, n1).dom().contains(ids[n as int - 1]));
        assert(msgs[n as int - 1].parent == prev_head);
        lemma_persist_extends_chain(
            store_after(ids, msgs, n1),
            prev_head,
            n1,
            ids[n as int - 1],
            msgs[n as int - 1],
        );
        assert(Seq::new(n, |i: int| stamp(msgs[i], ids[i])) =~= Seq::new(
            n1,
            |i: int| stamp(msgs[i], ids[i]),
        ).push(stamp(msgs[n as int - 1], ids[n as int - 1])));
    }
}

} // verus!
