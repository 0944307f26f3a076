//! A persistent, append-only conversation history for a chat agent.
//!
//! The conversation lives in an external key-value store as a singly-linked
//! chain of messages: each message points at the message that was the head of
//! the conversation when it was created.  This crate holds the verified core:
//! the message model, the store client's request/reply protocol, the
//! reconstruction of chronological history from the parent chain, the
//! completion client's request/reply handling, and the turn controller that
//! orchestrates a full user/assistant exchange with explicit partial-failure
//! semantics.  Transport plumbing (sockets, HTTP, asset serving) stays outside.

pub mod chain;
pub mod codec;
pub mod completion;
pub mod laws;
pub mod message;
pub mod store;
pub mod turn;
