//! A deterministic application kernel: an app is a pure `update` function from
//! events to commands, and this crate's runtime turns those commands into
//! effect requests for an outer shell to execute, routing the shell's replies
//! back to the suspended continuations.
//!
//! The runtime is single-threaded and cooperative: every entry from the host
//! (`process_event` or a `resolve` of an outstanding request) runs to
//! quiescence and returns the events and effects observed during that turn, in
//! their submission order.

pub mod app;
pub mod capability;
pub mod command;
pub mod event;
pub mod executor;
pub mod facade;
pub mod kv;
pub mod laws;
pub mod mapping;
pub mod render;
pub mod request;
pub mod testing;
pub mod text;
