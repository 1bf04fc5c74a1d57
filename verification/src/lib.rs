//! A desktop credential agent: an SSH agent protocol engine, an in-memory
//! encrypted secret store, and a sequence-numbered IPC broker for passkey and
//! status requests.

pub mod autofill;
pub mod autotype;
pub mod encoding;
pub mod host;
pub mod ipc;
pub mod json;
pub mod pending;
pub mod secure_memory;
pub mod ssh_agent;
pub mod text;
