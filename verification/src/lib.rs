//! A client library for a disposable-mail web service.
//!
//! The service generates temporary mailboxes, lists what has arrived in one
//! of them and hands out single messages, each as JSON over HTTP. This crate
//! holds everything about such a client that can be decided without touching
//! the network or the terminal:
//!
//! - `api` builds the URL of each request;
//! - `mail_list`, `mailbox` and `message` decode the three kinds of answer and
//!   format them for display;
//! - `session` is the interactive command loop as a state machine;
//! - `text` reads and writes decimal numbers;
//! - `json` and `document` are the way into `serde_json`, which does the
//!   parsing;
//! - `error` names what can go wrong.
//!
//! A program around it sends the requests, reads the lines and prints the
//! text. Every function here is verified against its contract; the contracts
//! of the `serde_json` functions in `json`, and of `String::push` in `text`,
//! are assumed.

pub mod api;
pub mod document;
pub mod error;
pub mod json;
pub mod mail_list;
pub mod mailbox;
pub mod message;
pub mod session;
pub mod text;
