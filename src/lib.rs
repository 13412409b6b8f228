//! Turns text into embeddings fetched from a remote service and stores them,
//! one row per input, in a vector-indexed table.

pub mod client;
pub mod commands;
pub mod config;
pub mod ingest;
pub mod store;
pub mod text;
