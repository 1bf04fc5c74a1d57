//! The passkey and status broker: typed requests and responses, their JSON
//! envelope, and the correlation of responses with requests by sequence
//! number.

use vstd::prelude::*;

use crate::json::lemma_find_member;
use crate::json::Json;
use crate::json::JsonValue;
use crate::json::ObjectWriter;
use crate::text::joined;
use crate::text::str_equal;

pub mod assertion;
pub mod client;
pub mod envelope;
pub mod lock_status;
pub mod registration;
pub mod server;
pub mod timed_callback;
pub mod window_handle_query;

pub use client::AutofillProviderClient;
pub use assertion::PasskeyAssertionRequest;
pub use assertion::PasskeyAssertionResponse;
pub use assertion::PasskeyAssertionWithoutUserInterfaceRequest;
pub use assertion::PreparePasskeyAssertionCallback;
pub use lock_status::GetLockStatusCallback;
pub use lock_status::LockStatusResponse;
pub use registration::PasskeyRegistrationRequest;
pub use registration::PasskeyRegistrationResponse;
pub use registration::PreparePasskeyRegistrationCallback;
pub use timed_callback::TimedCallback;
pub use window_handle_query::GetWindowHandleQueryCallback;
pub use window_handle_query::WindowHandleQueryResponse;

verus! {

/// User verification preference for WebAuthn requests.
#[derive(Debug, Clone, Copy, PartialEq, Eq)]
pub enum UserVerification {
    Preferred,
    Required,
    Discouraged,
}

/// Coordinates representing a point on the screen: the center of the
/// client's window, relative to the top-left point of the screen. They are
/// passed on as they are given.
#[derive(Debug, Clone, Copy, PartialEq, Eq)]
pub struct Position {
    pub x: i32,
    pub y: i32,
}

/// The errors that a request is answered with.
#[derive(Debug, Clone, PartialEq, Eq)]
pub enum BitwardenError {
    /// An unexpected failure, with a message that is safe to show.
    Internal(String),
    /// There is no live connection.
    Disconnected,
}

/// A `BitwardenError` with its message as a sequence of characters.
pub enum ErrorModel {
    Internal(Seq<char>),
    Disconnected,
}

/// The status of the connection between a client and the desktop
/// application's server.
#[derive(Debug, Clone, Copy, PartialEq, Eq)]
pub enum ConnectionStatus {
    Connected,
    Disconnected,
}

/// Native status information, sent one way as a key and a value.
#[derive(Debug, Clone, PartialEq, Eq)]
pub struct NativeStatus {
    pub key: String,
    pub value: String,
}

/// Types of errors for callbacks.
#[derive(Debug, Clone, Copy, PartialEq, Eq)]
pub enum CallbackError {
    Timeout,
    Cancelled,
}

/// The view of an optional string.
pub open spec fn optional_text(text: Option<String>) -> Option<Seq<char>> {
    match text {
        Some(held) => Some(held@),
        None => None,
    }
}

/// The view of an optional byte string.
pub open spec fn optional_bytes(bytes: Option<Vec<u8>>) -> Option<Seq<u8>> {
    match bytes {
        Some(held) => Some(held@),
        None => None,
    }
}

/// What an optional string is written as: null where it is absent.
pub open spec fn optional_text_json(text: Option<String>) -> Json {
    match text {
        Some(held) => Json::Text(held@),
        None => Json::Null,
    }
}

/// What an optional byte string is written as: null where it is absent.
pub open spec fn optional_bytes_json(bytes: Option<Vec<u8>>) -> Json {
    match bytes {
        Some(held) => Json::of_bytes(held@),
        None => Json::Null,
    }
}

/// Writes an optional string.
pub fn write_optional_text(text: &Option<String>) -> (value: JsonValue)
    ensures
        value@ == optional_text_json(*text),
{
    match text {
        Some(held) => JsonValue::of_text(held.as_str()),
        None => JsonValue::Null,
    }
}

/// Writes an optional byte string.
pub fn write_optional_bytes(bytes: &Option<Vec<u8>>) -> (value: JsonValue)
    ensures
        value@ == optional_bytes_json(*bytes),
{
    match bytes {
        Some(held) => JsonValue::of_bytes(held.as_slice()),
        None => JsonValue::Null,
    }
}

impl UserVerification {
    /// The name of the preference on the wire.
    pub open spec fn name(self) -> Seq<char> {
        match self {
            UserVerification::Preferred => "preferred"@,
            UserVerification::Required => "required"@,
            UserVerification::Discouraged => "discouraged"@,
        }
    }

    /// The name of the preference on the wire.
    pub fn as_str(&self) -> (name: &'static str)
        ensures
            name@ == self.name(),
    {
        match self {
            UserVerification::Preferred => "preferred",
            UserVerification::Required => "required",
            UserVerification::Discouraged => "discouraged",
        }
    }

    /// The preference that a name on the wire stands for.
    pub fn from_name(name: &str) -> (preference: Option<UserVerification>)
        ensures
            match preference {
                Some(found) => found.name() == name@,
                None => forall|any: UserVerification| any.name() != name@,
            },
    {
        if str_equal(name, "preferred") {
            Some(UserVerification::Preferred)
        } else if str_equal(name, "required") {
            Some(UserVerification::Required)
        } else if str_equal(name, "discouraged") {
            Some(UserVerification::Discouraged)
        } else {
            None
        }
    }
}

impl Position {
    /// The object that writes the position.
    pub open spec fn json(&self) -> Json {
        Json::Object(seq![("x"@, Json::Integer(self.x as int)), ("y"@, Json::Integer(self.y as int))])
    }

    /// Whether a JSON value holds this position.
    pub open spec fn describes(&self, value: Json) -> bool {
        &&& value.int32_field("x"@) == Some(self.x as int)
        &&& value.int32_field("y"@) == Some(self.y as int)
    }

    /// Writes the position.
    pub fn to_json(&self) -> (value: JsonValue)
        ensures
            value@ == self.json(),
    {
        let mut writer = ObjectWriter::new();
        writer.field("x", JsonValue::of_i32(self.x));
        writer.field("y", JsonValue::of_i32(self.y));
        let value = writer.finish();
        assert(value@->Object_0 =~= self.json()->Object_0);
        value
    }

    /// What is written is read back: a position describes the object that
    /// writes it.
    pub proof fn lemma_round_trip(&self)
        ensures
            self.describes(self.json()),
    {
        reveal_strlit("x");
        reveal_strlit("y");
        assert("x"@[0] != "y"@[0]);
        let members = self.json()->Object_0;
        lemma_find_member(members, "x"@, 0);
        lemma_find_member(members, "y"@, 1);
    }

    /// Reads a position.
    pub fn from_json(value: &JsonValue) -> (position: Option<Position>)
        ensures
            match position {
                Some(read) => read.describes(value@),
                None => forall|any: Position| !any.describes(value@),
            },
    {
        let x = match value.i32_field("x") {
            Some(x) => x,
            None => {
                return None;
            },
        };
        let y = match value.i32_field("y") {
            Some(y) => y,
            None => {
                return None;
            },
        };
        Some(Position { x, y })
    }
}

impl View for BitwardenError {
    type V = ErrorModel;

    open spec fn view(&self) -> ErrorModel {
        match self {
            BitwardenError::Internal(message) => ErrorModel::Internal(message@),
            BitwardenError::Disconnected => ErrorModel::Disconnected,
        }
    }
}

impl ErrorModel {
    /// The object that writes the error.
    pub open spec fn json(self) -> Json {
        match self {
            ErrorModel::Internal(message) => Json::Object(seq![("Internal"@, Json::Text(message))]),
            ErrorModel::Disconnected => Json::Object(seq![("Disconnected"@, Json::Null)]),
        }
    }

    /// The error that a JSON value writes, if it has the shape of one: an
    /// object with the one member `Internal` that is a string, or with the
    /// one member `Disconnected` that is null.
    pub open spec fn read(value: Json) -> Option<ErrorModel> {
        match value {
            Json::Object(members) => if members.len() == 1 && members[0].0 == "Internal"@
                && members[0].1 is Text {
                Some(ErrorModel::Internal(members[0].1->Text_0))
            } else if members.len() == 1 && members[0].0 == "Disconnected"@ && members[0].1
                is Null {
                Some(ErrorModel::Disconnected)
            } else {
                None
            },
            _ => None,
        }
    }

    /// What the error says.
    pub open spec fn message_text(self) -> Seq<char> {
        match self {
            ErrorModel::Internal(message) => "Internal error occurred: "@ + message,
            ErrorModel::Disconnected => "Client is disconnected from autofill IPC service"@,
        }
    }
}

impl BitwardenError {
    /// What the error says.
    pub fn message(&self) -> (text: String)
        ensures
            text@ == self@.message_text(),
    {
        match self {
            BitwardenError::Internal(message) => joined(
                "Internal error occurred: ",
                message.as_str(),
            ),
            BitwardenError::Disconnected => {
                "Client is disconnected from autofill IPC service".to_owned()
            },
        }
    }

    /// Writes the error.
    pub fn to_json(&self) -> (value: JsonValue)
        ensures
            value@ == self@.json(),
    {
        let mut writer = ObjectWriter::new();
        match self {
            BitwardenError::Internal(message) => {
                writer.field("Internal", JsonValue::of_text(message.as_str()));
            },
            BitwardenError::Disconnected => {
                writer.field("Disconnected", JsonValue::Null);
            },
        }
        let value = writer.finish();
        assert(value@->Object_0 =~= self@.json()->Object_0);
        value
    }

    /// Reads an error, from a value that has the shape of one.
    pub fn from_json(value: &JsonValue) -> (error: Option<BitwardenError>)
        ensures
            match error {
                Some(read) => ErrorModel::read(value@) == Some(read@),
                None => ErrorModel::read(value@) is None,
            },
    {
        match value {
            JsonValue::Object(members) => {
                if members.len() != 1 {
                    return None;
                }
                assert(value@->Object_0[0] == members@[0]@);
                if str_equal(members[0].name.as_str(), "Internal") {
                    match &members[0].value {
                        JsonValue::Text(message) => Some(BitwardenError::Internal(message.clone())),
                        _ => {
                            proof {
                                reveal_strlit("Internal");
                                reveal_strlit("Disconnected");
                                assert("Internal"@.len() != "Disconnected"@.len());
                            }
                            None
                        },
                    }
                } else if str_equal(members[0].name.as_str(), "Disconnected") {
                    match &members[0].value {
                        JsonValue::Null => Some(BitwardenError::Disconnected),
                        _ => None,
                    }
                } else {
                    None
                }
            },
            _ => None,
        }
    }
}

impl ConnectionStatus {
    /// The status that a connection flag stands for.
    pub fn from_connected(is_connected: bool) -> (status: ConnectionStatus)
        ensures
            status == (if is_connected {
                ConnectionStatus::Connected
            } else {
                ConnectionStatus::Disconnected
            }),
    {
        if is_connected {
            ConnectionStatus::Connected
        } else {
            ConnectionStatus::Disconnected
        }
    }
}

impl NativeStatus {
    /// The object that writes the status.
    pub open spec fn json(&self) -> Json {
        Json::Object(seq![("key"@, Json::Text(self.key@)), ("value"@, Json::Text(self.value@))])
    }

    /// Whether a JSON value holds this status.
    pub open spec fn describes(&self, value: Json) -> bool {
        &&& value.text_field("key"@) == Some(self.key@)
        &&& value.text_field("value"@) == Some(self.value@)
    }

    /// Writes the status.
    pub fn to_json(&self) -> (value: JsonValue)
        ensures
            value@ == self.json(),
    {
        let mut writer = ObjectWriter::new();
        writer.field("key", JsonValue::of_text(self.key.as_str()));
        writer.field("value", JsonValue::of_text(self.value.as_str()));
        let value = writer.finish();
        assert(value@->Object_0 =~= self.json()->Object_0);
        value
    }

    /// What is written is read back: a status describes the object that
    /// writes it.
    pub proof fn lemma_round_trip(&self)
        ensures
            self.describes(self.json()),
    {
        reveal_strlit("key");
        reveal_strlit("value");
        assert("key"@.len() != "value"@.len());
        let members = self.json()->Object_0;
        lemma_find_member(members, "key"@, 0);
        lemma_find_member(members, "value"@, 1);
    }

    /// Reads a status.
    pub fn from_json(value: &JsonValue) -> (status: Option<NativeStatus>)
        ensures
            match status {
                Some(read) => read.describes(value@),
                None => forall|any: NativeStatus| !any.describes(value@),
            },
    {
        let key = match value.text_field("key") {
            Some(key) => key,
            None => {
                return None;
            },
        };
        let held = match value.text_field("value") {
            Some(held) => held,
            None => {
                return None;
            },
        };
        Some(NativeStatus { key, value: held })
    }
}

impl CallbackError {
    /// What the error says.
    pub open spec fn message_text(self) -> Seq<char> {
        match self {
            CallbackError::Timeout => "Callback timed out"@,
            CallbackError::Cancelled => "Callback cancelled"@,
        }
    }

    /// What the error says.
    pub fn message(&self) -> (text: String)
        ensures
            text@ == self.message_text(),
    {
        match self {
            CallbackError::Timeout => "Callback timed out".to_owned(),
            CallbackError::Cancelled => "Callback cancelled".to_owned(),
        }
    }
}

} // verus!
