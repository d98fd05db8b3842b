//! Streaming chat core: conversation store, chunk aggregation of generated
//! text, transcription session lifecycle and single-flight session ownership.

pub mod models;
pub mod store;
pub mod aggregator;
pub mod session;
pub mod transcription;
pub mod monitor;
pub mod config;
pub mod settings;
pub mod agent;
pub mod recognizer;
pub mod generation;
