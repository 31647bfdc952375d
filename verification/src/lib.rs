//! A bridge between free-text user input and a remote chat-completion endpoint.
//!
//! The library assembles the conversation, writes the JSON request body,
//! describes the HTTP request to dispatch, and decides — event by event — how
//! one exchange with the endpoint proceeds. The host performs the network
//! round-trip and reports back what happened.

pub mod chat;
pub mod exchange;
pub mod http;
pub mod json_body;
