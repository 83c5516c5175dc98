//! A local development helper for an Elm project: it watches the source tree,
//! re-invokes the Elm compiler when a source file's data changes, and serves
//! the HTML shell and the compiled bundle over HTTP.
//!
//! This crate holds the decision logic of that helper, verified: which
//! filesystem events qualify for a rebuild, what the fixed compiler
//! invocation is, whether startup may proceed to serving, and what HTTP
//! reply a file read produces. The surrounding process — the watcher
//! subscription, the process spawn, the HTTP framework — lives outside and
//! feeds plain values in.

pub mod config;
pub mod events;
pub mod paths;
pub mod server;
pub mod watch;
