//! Verified core of the Synapse launcher.
//!
//! The crate holds what the launcher decides and computes, with a contract
//! on every function that Verus proves:
//!
//! - [`settings`]: the settings data model and its validation, the store
//!   that keeps the settings in force and saves them so that the settings
//!   file is never seen half-written, and the vault that keeps one
//!   credential per provider in the secret store of the platform;
//! - [`commands`]: what the user interface may ask for, and the errors it
//!   gets back;
//! - [`services`]: the data exchanged with AI providers and the
//!   book-keeping of chat sessions;
//! - [`window`]: where windows are put;
//! - [`utils`]: the application error and helpers for text.
//!
//! The crate reads and writes no file and owns no window. Where work has
//! to be done outside, it hands out a request and takes the outcome back.
//! The calls that it makes into other crates are few and are marked as
//! trusted where they stand.

pub mod commands;
pub mod services;
pub mod settings;
pub mod utils;
pub mod window;
