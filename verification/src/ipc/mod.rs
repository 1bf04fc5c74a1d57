//! The local transport: endpoint names, the events of a server's listener,
//! and the client's connection loop.

use vstd::prelude::*;

pub mod client;
pub mod framing;
pub mod path;
pub mod pipe;
pub mod server;

pub use path::path;

verus! {

/// The kinds of event that a server's listener reports.
#[derive(Debug, Clone, Copy, PartialEq, Eq)]
pub enum MessageType {
    Connected,
    Disconnected,
    Message,
}

/// An event of a server's listener.
#[derive(Debug, Clone, PartialEq, Eq)]
pub struct Message {
    /// The client that the event is about.
    pub client_id: u32,
    pub kind: MessageType,
    /// The text of a message; connection events have none.
    pub message: Option<String>,
}

} // verus!
