//! Decision core of a mailbox watcher: which messages are new, what to tell
//! the recipient about them, and when the mailbox session must be rebuilt.

pub mod config;
pub mod controller;
pub mod envelope;
pub mod laws;
pub mod model;
pub mod notice;
pub mod protocol;
pub mod recovery;
pub mod seen;
pub mod text;
