//! The envelope of the passkey and status channel: a control message, or a
//! value with the sequence number that ties a response to its request.

use vstd::prelude::*;

use crate::autofill::BitwardenError;
use crate::autofill::ErrorModel;
use crate::json::json_parsed;
use crate::json::json_rendered;
use crate::json::Json;
use crate::json::JsonValue;
use crate::json::ObjectWriter;
use crate::text::str_equal;

verus! {

/// The sequence number of a message that expects no response.
pub const NO_CALLBACK_INDICATOR: u32 = 0;

/// The two control messages.
#[derive(Debug, Clone, Copy, PartialEq, Eq)]
pub enum CommandMessage {
    Connected,
    Disconnected,
}

/// A message of the channel.
#[derive(Debug)]
pub enum SerializedMessage {
    Command(CommandMessage),
    Message { sequence_number: u32, value: Result<JsonValue, BitwardenError> },
}

/// A message of the channel, as mathematics sees it.
pub enum EnvelopeModel {
    Command(CommandMessage),
    Message { sequence_number: u32, value: Result<Json, ErrorModel> },
}

impl CommandMessage {
    /// The name of the command on the wire.
    pub open spec fn name(self) -> Seq<char> {
        match self {
            CommandMessage::Connected => "connected"@,
            CommandMessage::Disconnected => "disconnected"@,
        }
    }

    /// The name of the command on the wire.
    pub fn as_str(&self) -> (name: &'static str)
        ensures
            name@ == self.name(),
    {
        match self {
            CommandMessage::Connected => "connected",
            CommandMessage::Disconnected => "disconnected",
        }
    }
}

/// The command that a JSON value names, if it is the name of one.
pub open spec fn command_read(value: Json) -> Option<CommandMessage> {
    if value.text() == Some("connected"@) {
        Some(CommandMessage::Connected)
    } else if value.text() == Some("disconnected"@) {
        Some(CommandMessage::Disconnected)
    } else {
        None
    }
}

/// What the `value` of an envelope carries: an error where it has the shape
/// of one, and itself otherwise.
pub open spec fn payload_read(value: Json) -> Result<Json, ErrorModel> {
    match ErrorModel::read(value) {
        Some(error) => Err(error),
        None => Ok(value),
    }
}

/// What a payload is written as.
pub open spec fn payload_json(value: Result<Json, ErrorModel>) -> Json {
    match value {
        Ok(held) => held,
        Err(error) => error.json(),
    }
}

impl EnvelopeModel {
    /// The message that a JSON value writes. With a member `command` it is a
    /// control message, and must name one of the two commands. Without, it
    /// must have a `sequenceNumber` that fits 32 bits and a `value`.
    pub open spec fn read(value: Json) -> Option<EnvelopeModel> {
        match value.member("command"@) {
            Some(command) => match command_read(command) {
                Some(found) => Some(EnvelopeModel::Command(found)),
                None => None,
            },
            None => match (value.member("sequenceNumber"@), value.member("value"@)) {
                (Some(number), Some(payload)) => match number.integer_within(0, 0xffff_ffff) {
                    Some(n) => Some(
                        EnvelopeModel::Message {
                            sequence_number: n as u32,
                            value: payload_read(payload),
                        },
                    ),
                    None => None,
                },
                _ => None,
            },
        }
    }

    /// The message that a text writes.
    pub open spec fn read_text(text: Seq<char>) -> Option<EnvelopeModel> {
        match json_parsed(text) {
            Some(value) => EnvelopeModel::read(value),
            None => None,
        }
    }

    /// The object that writes the message.
    pub open spec fn json(self) -> Json {
        match self {
            EnvelopeModel::Command(command) => Json::Object(
                seq![("command"@, Json::Text(command.name()))],
            ),
            EnvelopeModel::Message { sequence_number, value } => Json::Object(
                seq![
                    ("sequenceNumber"@, Json::Integer(sequence_number as int)),
                    ("value"@, payload_json(value)),
                ],
            ),
        }
    }
}

/// The view of a payload.
pub open spec fn payload_view(value: Result<JsonValue, BitwardenError>) -> Result<Json, ErrorModel> {
    match value {
        Ok(held) => Ok(held@),
        Err(error) => Err(error@),
    }
}

impl View for SerializedMessage {
    type V = EnvelopeModel;

    open spec fn view(&self) -> EnvelopeModel {
        match self {
            SerializedMessage::Command(command) => EnvelopeModel::Command(*command),
            SerializedMessage::Message { sequence_number, value } => EnvelopeModel::Message {
                sequence_number: *sequence_number,
                value: payload_view(*value),
            },
        }
    }
}

impl SerializedMessage {
    /// The message for a request or a response.
    pub fn message(sequence_number: u32, value: Result<JsonValue, BitwardenError>) -> (message:
        SerializedMessage)
        ensures
            message@ == (EnvelopeModel::Message { sequence_number, value: payload_view(value) }),
    {
        SerializedMessage::Message { sequence_number, value }
    }

    /// Reads a message from a JSON value.
    pub fn from_json(value: JsonValue) -> (message: Option<SerializedMessage>)
        ensures
            match message {
                Some(read) => EnvelopeModel::read(value@) == Some(read@),
                None => EnvelopeModel::read(value@) is None,
            },
    {
        match value.get("command") {
            Some(command) => {
                match command.as_text() {
                    Some(name) => {
                        if str_equal(name.as_str(), "connected") {
                            Some(SerializedMessage::Command(CommandMessage::Connected))
                        } else if str_equal(name.as_str(), "disconnected") {
                            Some(SerializedMessage::Command(CommandMessage::Disconnected))
                        } else {
                            None
                        }
                    },
                    None => None,
                }
            },
            None => {
                let sequence_number = match value.get("sequenceNumber") {
                    Some(number) => match number.as_u32() {
                        Some(n) => n,
                        None => {
                            return None;
                        },
                    },
                    None => {
                        return None;
                    },
                };
                let payload = match value.into_member("value") {
                    Some(payload) => payload,
                    None => {
                        return None;
                    },
                };
                match BitwardenError::from_json(&payload) {
                    Some(error) => Some(
                        SerializedMessage::Message { sequence_number, value: Err(error) },
                    ),
                    None => Some(SerializedMessage::Message { sequence_number, value: Ok(payload) }),
                }
            },
        }
    }

    /// Reads a message from its text.
    pub fn parse(text: &str) -> (message: Option<SerializedMessage>)
        ensures
            match message {
                Some(read) => EnvelopeModel::read_text(text@) == Some(read@),
                None => EnvelopeModel::read_text(text@) is None,
            },
    {
        match JsonValue::parse(text) {
            Some(value) => SerializedMessage::from_json(value),
            None => None,
        }
    }

    /// Writes the message as a JSON value.
    pub fn into_json(self) -> (value: JsonValue)
        ensures
            value@ == self@.json(),
    {
        let mut writer = ObjectWriter::new();
        match self {
            SerializedMessage::Command(command) => {
                writer.field("command", JsonValue::of_text(command.as_str()));
            },
            SerializedMessage::Message { sequence_number, value } => {
                writer.field("sequenceNumber", JsonValue::of_u32(sequence_number));
                match value {
                    Ok(held) => {
                        writer.field("value", held);
                    },
                    Err(error) => {
                        writer.field("value", error.to_json());
                    },
                }
            },
        }
        let value = writer.finish();
        assert(value@->Object_0 =~= self@.json()->Object_0);
        value
    }

    /// Writes the message as text.
    pub fn render(self) -> (text: String)
        ensures
            text@ == json_rendered(self@.json()),
    {
        self.into_json().render()
    }
}

} // verus!
