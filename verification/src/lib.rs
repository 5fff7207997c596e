//! Verified core of the DoomHelix editor-agent integration: agent
//! configuration, the JSON-RPC/ACP message model, the content-length framing
//! of the transport, editor-context prompts, the transcript model and the
//! decisions of the prompt-turn protocol.
pub mod acp;
pub mod adapter;
pub mod config;
pub mod context;
pub mod json;
pub mod layers;
pub mod modes;
pub mod permission;
pub mod runtime;
pub mod session;
pub mod snapshot;
pub mod summary;
pub mod text;
pub mod transcript;
pub mod transport;
pub mod turn;
