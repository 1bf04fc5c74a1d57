//! The SSH agent: keys held in memory, the wire protocol, and the decisions
//! that each request of a client calls for.

pub mod agent;
pub mod crypto;
pub mod generator;
pub mod keystore;
pub mod msg;
pub mod wire;
