//! Agents that talk to a large language model and let it use tools.
//!
//! An [`agent::Agent`] keeps the history of a conversation and a set of
//! toolboxes. The model is asked with the whole history; where it asks for
//! tools, each call goes to the first toolbox that has the tool, the answers
//! are added to the history, and the model is asked again, until it answers
//! in text. The library decides and keeps the books; talking to the model
//! and to services on the network is left to the caller.
//!
//! - [`agent`]: the conversation, step by step.
//! - [`chat`]: messages, requests and responses.
//! - [`tool`]: tools, toolboxes and sets of toolboxes; the tools that come
//!   with the library.
//! - [`json`]: what is asked of `serde_json`.
//! - [`text`]: trimming, numerals and searching in strings.

pub mod agent;
pub mod chat;
pub mod json;
pub mod text;
pub mod tool;
