//! Fabric patterns served as tools over line-delimited JSON-RPC.
//!
//! The crate holds the catalog of patterns, the heuristics that derive a
//! pattern's metadata from its text, the JSON-RPC envelopes and the request
//! dispatcher. Every function states its behaviour as a contract over
//! sequences of characters and JSON trees.

pub mod config;
pub mod error;
pub mod executor;
pub mod json;
pub mod llm;
pub mod loader;
pub mod metadata;
pub mod pattern;
pub mod protocol;
pub mod server;
pub mod text;
pub mod transport;
