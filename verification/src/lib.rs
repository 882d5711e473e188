//! A hot-reload harness runtime: a long-lived server process watches a
//! shared-library artifact on disk and supervises a short-lived client
//! process that loads the library and runs user code. When the artifact
//! changes, the server fetches the user state from the client, respawns
//! it, and hands the state to the new client, so that user state survives
//! a code swap.
//!
//! This crate holds the verified core: the byte-array record of the C ABI,
//! the control-protocol messages and their wire encoding, the watcher
//! decision logic, the server and client state machines, and the path
//! resolution for library artifacts. Process, socket and loader plumbing
//! lives outside the library and drives these state machines.

pub mod abi;
pub mod cargo;
pub mod cli;
pub mod client;
pub mod codec;
pub mod message;
pub mod paths;
pub mod project;
pub mod runner;
pub mod server;
pub mod watcher;
