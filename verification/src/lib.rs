//! Canned-content chat responder: immutable corpora of quotes and reasons,
//! uniform random selection, and pure rendering of reply payloads.

pub mod corpus;
pub mod dispatch;
pub mod responder;
pub mod store;
