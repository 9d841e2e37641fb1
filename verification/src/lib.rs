//! Decision logic of a desktop launcher that supervises one node-agent child
//! process and keeps the operator's settings.
//!
//! The library creates no process and opens no file. Every operation that
//! needs the operating system for that is split into the decisions, which
//! live here and are verified, and the outside work, which the embedding
//! program performs and reports back as a plain value. Two questions are put
//! to the machine from here, each through a crate made for it: where the
//! user's configuration directory lies, and how many processors there are.

pub mod commands;
pub mod error;
pub mod files;
pub mod hardware;
pub mod locator;
pub mod settings;
pub mod store;
pub mod supervisor;
