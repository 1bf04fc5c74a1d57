//! The server side of the broker: it sorts each message of a client by the
//! shape of its value, and writes the responses.

use vstd::prelude::*;

use crate::autofill::assertion::PasskeyAssertionRequest;
use crate::autofill::assertion::PasskeyAssertionResponse;
use crate::autofill::assertion::PasskeyAssertionWithoutUserInterfaceRequest;
use crate::autofill::envelope::EnvelopeModel;
use crate::autofill::envelope::SerializedMessage;
use crate::autofill::registration::PasskeyRegistrationRequest;
use crate::autofill::registration::PasskeyRegistrationResponse;
use crate::autofill::BitwardenError;
use crate::autofill::ErrorModel;
use crate::autofill::NativeStatus;
use crate::ipc::Message;
use crate::ipc::MessageType;
use crate::json::json_rendered;
use crate::json::Json;
use crate::json::JsonValue;
use crate::text::joined;

verus! {

/// The text that `Debug` formatting writes for a string: the string in
/// quotes, with escapes.
pub uninterp spec fn debug_quoted_text(text: Seq<char>) -> Seq<char>;

/// A request of a client, told by the shape of its value.
#[derive(Debug)]
pub enum PasskeyRequest {
    Assertion(PasskeyAssertionRequest),
    AssertionWithoutUserInterface(PasskeyAssertionWithoutUserInterfaceRequest),
    Registration(PasskeyRegistrationRequest),
    NativeStatus(NativeStatus),
}

/// What the host is to do with a message of a client.
#[derive(Debug)]
pub enum ServerCall {
    /// A connection event: nothing to do.
    Ignore,
    /// A message without text: nothing to do.
    Empty,
    /// Call the hook for the request.
    Request { client_id: u32, sequence_number: u32, request: PasskeyRequest },
    /// The value is an error: the hook for assertions is called with it.
    Failure { client_id: u32, sequence_number: u32, reason: String },
    /// The text is no message, or its value has no known shape.
    Unknown,
}

/// Formats a string with `Debug` through `format!`. The contract names the
/// text written.
#[verifier::external_body]
fn debug_quoted(text: &str) -> (quoted: String)
    ensures
        quoted@ == debug_quoted_text(text@),
{
    format!("{text:?}")
}

/// What `Debug` formatting writes for an error.
pub open spec fn error_debug_text(error: ErrorModel) -> Seq<char> {
    match error {
        ErrorModel::Internal(message) => "Internal("@ + debug_quoted_text(message) + ")"@,
        ErrorModel::Disconnected => "Disconnected"@,
    }
}

/// Writes an error as `Debug` formatting does.
pub fn error_debug(error: &BitwardenError) -> (text: String)
    ensures
        text@ == error_debug_text(error@),
{
    match error {
        BitwardenError::Internal(message) => {
            let quoted = debug_quoted(message.as_str());
            let start = joined("Internal(", quoted.as_str());
            joined(start.as_str(), ")")
        },
        BitwardenError::Disconnected => "Disconnected".to_owned(),
    }
}

/// Whether a request is the one that a value is sorted as. The shapes are
/// tried in a fixed order, and the first that fits decides: an assertion, an
/// assertion without user interface, a registration, a native status.
pub open spec fn sorted_as(request: PasskeyRequest, value: Json) -> bool {
    match request {
        PasskeyRequest::Assertion(found) => found.describes(value),
        PasskeyRequest::AssertionWithoutUserInterface(found) => {
            &&& forall|any: PasskeyAssertionRequest| !any.describes(value)
            &&& found.describes(value)
        },
        PasskeyRequest::Registration(found) => {
            &&& forall|any: PasskeyAssertionRequest| !any.describes(value)
            &&& forall|any: PasskeyAssertionWithoutUserInterfaceRequest| !any.describes(value)
            &&& found.describes(value)
        },
        PasskeyRequest::NativeStatus(found) => {
            &&& forall|any: PasskeyAssertionRequest| !any.describes(value)
            &&& forall|any: PasskeyAssertionWithoutUserInterfaceRequest| !any.describes(value)
            &&& forall|any: PasskeyRegistrationRequest| !any.describes(value)
            &&& found.describes(value)
        },
    }
}

/// Whether a value has none of the known shapes.
pub open spec fn unsorted(value: Json) -> bool {
    &&& forall|any: PasskeyAssertionRequest| !any.describes(value)
    &&& forall|any: PasskeyAssertionWithoutUserInterfaceRequest| !any.describes(value)
    &&& forall|any: PasskeyRegistrationRequest| !any.describes(value)
    &&& forall|any: NativeStatus| !any.describes(value)
}

/// Sorts the value of a request by its shape.
pub fn sort_request(value: &JsonValue) -> (request: Option<PasskeyRequest>)
    ensures
        match request {
            Some(found) => sorted_as(found, value@),
            None => unsorted(value@),
        },
{
    match PasskeyAssertionRequest::from_json(value) {
        Some(found) => {
            return Some(PasskeyRequest::Assertion(found));
        },
        None => {},
    }
    match PasskeyAssertionWithoutUserInterfaceRequest::from_json(value) {
        Some(found) => {
            return Some(PasskeyRequest::AssertionWithoutUserInterface(found));
        },
        None => {},
    }
    match PasskeyRegistrationRequest::from_json(value) {
        Some(found) => {
            return Some(PasskeyRequest::Registration(found));
        },
        None => {},
    }
    match NativeStatus::from_json(value) {
        Some(found) => Some(PasskeyRequest::NativeStatus(found)),
        None => None,
    }
}

/// Whether a call is the one that the text of a message of a client is
/// sorted to. The text must be an envelope with a sequence number and a
/// value. An error as the value goes to the hook for assertions; any other
/// value is sorted by its shape.
pub open spec fn sorts_to(client_id: u32, text: Seq<char>, call: ServerCall) -> bool {
    match EnvelopeModel::read_text(text) {
        Some(EnvelopeModel::Message { sequence_number, value: Ok(held) }) => match call {
            ServerCall::Request { client_id: client, sequence_number: number, request } => client
                == client_id && number == sequence_number && sorted_as(request, held),
            ServerCall::Unknown => unsorted(held),
            _ => false,
        },
        Some(EnvelopeModel::Message { sequence_number, value: Err(error) }) => match call {
            ServerCall::Failure { client_id: client, sequence_number: number, reason } => client
                == client_id && number == sequence_number && reason@ == error_debug_text(error),
            _ => false,
        },
        _ => call is Unknown,
    }
}

/// Sorts the text of a message of a client.
pub fn sort_message(client_id: u32, text: &str) -> (call: ServerCall)
    ensures
        sorts_to(client_id, text@, call),
{
    match SerializedMessage::parse(text) {
        Some(SerializedMessage::Message { sequence_number, value }) => match value {
            Ok(held) => match sort_request(&held) {
                Some(request) => ServerCall::Request { client_id, sequence_number, request },
                None => ServerCall::Unknown,
            },
            Err(error) => ServerCall::Failure {
                client_id,
                sequence_number,
                reason: error_debug(&error),
            },
        },
        _ => ServerCall::Unknown,
    }
}

/// The server of the passkey and status channel.
pub struct AutofillIpcServer {
    /// The path of the endpoint that the server listens on.
    pub path: String,
}

impl AutofillIpcServer {
    /// A server for the endpoint at `path`.
    pub fn new(path: String) -> (server: AutofillIpcServer)
        ensures
            server.path@ == path@,
    {
        AutofillIpcServer { path }
    }

    /// Return the path to the IPC server.
    pub fn get_path(&self) -> (path: String)
        ensures
            path@ == self.path@,
    {
        self.path.clone()
    }

    /// What the host is to do with an event of the listener: connection
    /// events are passed over, a message is sorted.
    pub fn listen(message: &Message) -> (call: ServerCall)
        ensures
            match message.kind {
                MessageType::Connected | MessageType::Disconnected => call is Ignore,
                MessageType::Message => match message.message {
                    None => call is Empty,
                    Some(text) => sorts_to(message.client_id, text@, call),
                },
            },
    {
        match message.kind {
            MessageType::Connected => ServerCall::Ignore,
            MessageType::Disconnected => ServerCall::Ignore,
            MessageType::Message => match &message.message {
                None => ServerCall::Empty,
                Some(text) => sort_message(message.client_id, text.as_str()),
            },
        }
    }

    /// The text that answers a registration request.
    pub fn complete_registration(sequence_number: u32, response: &PasskeyRegistrationResponse)
        -> (text: String)
        ensures
            text@ == json_rendered(
                (EnvelopeModel::Message { sequence_number, value: Ok(response.json()) }).json(),
            ),
    {
        SerializedMessage::message(sequence_number, Ok(response.to_json())).render()
    }

    /// The text that answers an assertion request.
    pub fn complete_assertion(sequence_number: u32, response: &PasskeyAssertionResponse) -> (text:
        String)
        ensures
            text@ == json_rendered(
                (EnvelopeModel::Message { sequence_number, value: Ok(response.json()) }).json(),
            ),
    {
        SerializedMessage::message(sequence_number, Ok(response.to_json())).render()
    }

    /// The text that answers a request with an error.
    pub fn complete_error(sequence_number: u32, error: String) -> (text: String)
        ensures
            text@ == json_rendered(
                (EnvelopeModel::Message {
                    sequence_number,
                    value: Err(ErrorModel::Internal(error@)),
                }).json(),
            ),
    {
        SerializedMessage::message(sequence_number, Err(BitwardenError::Internal(error))).render()
    }

    /// The number of clients that a message was sent to, as the host is
    /// told it: zero where the number does not fit 32 bits.
    pub fn send(clients_reached: usize) -> (reported: u32)
        ensures
            reported == (if clients_reached <= u32::MAX {
                clients_reached as u32
            } else {
                0u32
            }),
    {
        if clients_reached <= 0xffff_ffff {
            clients_reached as u32
        } else {
            0
        }
    }
}

} // verus!
