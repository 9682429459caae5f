//! A terminal application core for managing local SSH artifacts: key pairs,
//! known-hosts entries and the client configuration file.
//!
//! The crate holds the deterministic heart of the application: a single owned
//! [`model::Model`] that applies typed messages one at a time, the translation
//! of raw key input into those messages, the modal (vim-like) editor state
//! machine, and the classification of key-generation subprocess output into
//! typed events. Everything that touches the operating system (the terminal,
//! the pseudo-terminal running the key generator, the clipboard, the
//! filesystem) lives outside and exchanges plain values with this crate.

pub mod actions;
pub mod async_jobs;
pub mod commands;
pub mod dispatcher;
pub mod events;
pub mod model;
pub mod stores;
pub mod ui;
pub mod utils;
