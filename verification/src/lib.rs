//! A terminal chat session against a remote text-completion service.
//!
//! The heart of the crate is the session state machine: a mode flag, an input
//! buffer, an append-only transcript and a scroll offset, together with the
//! key-event dispatch of the event loop and the commit step of the dispatch
//! task. Every state change is specified and verified; the terminal, the HTTP
//! transport and the async runtime sit outside the library and hand it plain
//! values.

pub mod api;
pub mod app;
pub mod tui;
pub mod ui;
