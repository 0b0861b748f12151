//! Request lifecycle, stream decoding and tool-calling protocol for a client of
//! a locally hosted language-model server.
//!
//! The library decides and computes; it sends nothing itself. Whoever uses it
//! performs the network calls that it asks for and hands back what came of
//! them, as plain values.
//!
//! - `registry`: one request in flight for each kind of operation; a newer
//!   request takes the place of an older one and stops it.
//! - `lines`, `decoder`, `stream`: a byte stream in chunks becomes lines, and
//!   lines become events.
//! - `orchestrator`, `conversation`, `tools`: a quick answer with at most one
//!   round of tools.
//! - `translate`: one translation call, and the rule that picks the language.
//! - `chat`, `json`, `models`, `commands`, `text`, `transport`: the documents
//!   and values that the others work on.

pub mod chat;
pub mod commands;
pub mod conversation;
pub mod decoder;
pub mod json;
pub mod lines;
pub mod models;
pub mod orchestrator;
pub mod registry;
pub mod stream;
pub mod text;
pub mod tools;
pub mod translate;
pub mod transport;

pub use translate::TranslationResult;
