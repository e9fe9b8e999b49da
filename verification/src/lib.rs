//! Staging and publishing of experiment directories.
//!
//! An experiment starts as a context: a fresh directory in the staging area
//! `<root>/.new` that records the experiment's name and start time. Files are
//! reserved inside the context, and a commit moves the whole context, by one
//! rename, to `<root>/<name>-<start-time>-<8 hex digits>`.
//!
//! The library decides; it never touches the filesystem. Each operation is a
//! small machine that issues one [`protocol::Action`] at a time and takes the
//! [`protocol::Event`] that reports how the action went. The caller performs
//! the actions. The clock and the random source are read by the library
//! itself, when a machine asks for them.

pub mod commit;
pub mod config;
pub mod error;
pub mod file;
pub mod layout;
pub mod protocol;
pub mod session;
pub mod sources;
pub mod start;
