//! Hirai: a file change broadcaster and listener.
//!
//! The library holds the decisions of the program: how configuration sources
//! are merged, how a file system change becomes an event, how an event is
//! framed on the wire, which addresses a listener accepts, and what each
//! long-running task does with the next thing that happens to it.

pub mod event;
pub mod config;
pub mod network;
pub mod watcher;
pub mod web;
pub mod supervisor;
