//! Event-dispatch core of a terminal transcription client.
//!
//! The library holds the logic that drives the application: the mutable
//! application state, the handlers that map key and mouse events to state
//! changes and outbound commands, the line-oriented command codec, and the
//! decision functions of the dispatch loop. Terminal rendering and the
//! socket I/O that carry the events live outside the library and hand it
//! plain values.

pub mod app;
pub mod chat;
pub mod command;
pub mod dispatch;
pub mod event;
pub mod handler;
