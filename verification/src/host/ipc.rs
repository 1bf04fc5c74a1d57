//! The events of a server's listener, as the host sees them.

use vstd::prelude::*;
use vstd::std_specs::convert::FromSpecImpl;

use crate::ipc::Message;
use crate::ipc::MessageType;

verus! {

/// An event of a server's listener, as the host sees it.
#[derive(Debug, Clone, PartialEq, Eq)]
pub struct IpcMessage {
    pub client_id: u32,
    pub kind: IpcMessageType,
    pub message: Option<String>,
}

/// The kinds of event, as the host sees them.
#[derive(Debug, Clone, Copy, PartialEq, Eq)]
pub enum IpcMessageType {
    Connected,
    Disconnected,
    Message,
}

/// The kind that the host sees for a kind of event.
pub open spec fn host_kind(kind: MessageType) -> IpcMessageType {
    match kind {
        MessageType::Connected => IpcMessageType::Connected,
        MessageType::Disconnected => IpcMessageType::Disconnected,
        MessageType::Message => IpcMessageType::Message,
    }
}

impl From<MessageType> for IpcMessageType {
    fn from(message_type: MessageType) -> (kind: IpcMessageType) {
        match message_type {
            MessageType::Connected => IpcMessageType::Connected,
            MessageType::Disconnected => IpcMessageType::Disconnected,
            MessageType::Message => IpcMessageType::Message,
        }
    }
}

impl FromSpecImpl<MessageType> for IpcMessageType {
    open spec fn obeys_from_spec() -> bool {
        true
    }

    open spec fn from_spec(message_type: MessageType) -> IpcMessageType {
        host_kind(message_type)
    }
}

impl From<Message> for IpcMessage {
    fn from(message: Message) -> (seen: IpcMessage) {
        IpcMessage {
            client_id: message.client_id,
            kind: IpcMessageType::from(message.kind),
            message: message.message,
        }
    }
}

impl FromSpecImpl<Message> for IpcMessage {
    open spec fn obeys_from_spec() -> bool {
        true
    }

    open spec fn from_spec(message: Message) -> IpcMessage {
        IpcMessage {
            client_id: message.client_id,
            kind: host_kind(message.kind),
            message: message.message,
        }
    }
}

} // verus!
