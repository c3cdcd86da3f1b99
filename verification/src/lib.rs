//! Chitti: an interactive terminal assistant built around a verified core.
//!
//! The crate verifies the logic that drives a multi-turn conversation with a
//! remote generative model: the conductor state machine (turns, tool-approval
//! gating, steering, memory modes), the server-sent-event decoder and event
//! normalization, request construction and its JSON wire encoding, the retry
//! policy, and the tool argument/result shaping. Terminal rendering and the
//! actual HTTP, shell and file I/O live outside the verified core and hand it
//! plain values.

pub mod json;
pub mod adapter;
pub mod client;
pub mod conductor;
pub mod config;
pub mod events;
pub mod protocol;
pub mod resources;
pub mod retry;
pub mod session;
pub mod sse;
pub mod text;
pub mod tools;
pub mod transcript;
pub mod wire;
