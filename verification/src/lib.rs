//! Federated room-membership engine.
//!
//! This library drives join, invite, kick, ban, unban, leave and forget
//! transitions for rooms whose event history is spread over many independent
//! servers.  It builds, signs and validates membership events, negotiates
//! joins and leaves with remote servers, screens incoming events through a
//! backoff table, and folds validated room snapshots into local state in an
//! order that never exposes a join event without the state that explains it.
//!
//! All network and storage traffic stays outside: callers hand in the data
//! they read and execute the plans handed back.  Cryptographic hashing and
//! signing are delegated to the `ruma` crates through a small trusted layer.

pub mod admission;
pub mod crypto;
pub mod errors;
pub mod json;
pub mod keys;
pub mod limiter;
pub mod member;
pub mod negotiator;
pub mod orchestrator;
pub mod room_version;
pub mod signer;
pub mod util;
pub mod validator;
