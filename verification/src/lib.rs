//! A synchronization engine that keeps one working directory consistent with
//! a version-controlled history shared with a remote peer.

pub mod backend;
pub mod commit;
pub mod credential;
pub mod error;
pub mod history;
pub mod key_gen;
pub mod merge;
pub mod mime_types;
pub mod progress;
pub mod session;
pub mod setup;
pub mod transport;
