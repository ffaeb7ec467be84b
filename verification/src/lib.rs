//! Message migration engine for a real-time chat service.
//!
//! The crate holds the stateful core of a bot that moves messages between
//! channels: a bounded per-channel message cache, a cache of impersonation
//! endpoints with claim-then-populate provisioning, the consent state machine
//! that gates moves touching other people's messages, and the pipeline that
//! sequences them. Every function carries a contract that Verus proves; the
//! few calls into other crates sit behind small trusted wrappers in `shims`.

pub mod cache;
pub mod cache_laws;
pub mod commands;
pub mod consent;
pub mod consent_laws;
pub mod errors;
pub mod events;
pub mod message;
pub mod window;
pub mod window_laws;
pub mod pipeline;
pub mod pipeline_laws;
pub mod plan;
pub mod shims;
pub mod text;
pub mod webhooks;
