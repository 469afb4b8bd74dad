//! Core of a live preview for a single markdown document.
//!
//! The crate holds the decisions of the watch → render → serve pipeline as
//! plain functions over plain values: what a file watcher does with each
//! notification, how a file's text becomes a rendered outcome with its
//! fingerprint, and how the snapshot store answers readers. Threads,
//! channels, files and sockets belong to the program around it.

pub mod cli;
pub mod fingerprint;
pub mod markdown;
pub mod pipeline;
pub mod render;
pub mod server;
pub mod text;
pub mod watcher;
