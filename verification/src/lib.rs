//! Persistence backend for an agent-runtime configuration editor.
//!
//! The library models the configuration document as plain typed data,
//! merges edits into the stored document section by section, provides
//! the provider and agent-defaults operations of the editor, and builds
//! the paths and file names used for persistence and timestamped
//! backups. Reading and writing the files themselves stays with the
//! caller, which hands documents and paths across this boundary.

pub mod commands;
pub mod dict;
pub mod error;
pub mod models;
pub mod paths;
pub mod service;
