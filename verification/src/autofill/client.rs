//! The client side of the broker: it numbers requests, remembers who waits
//! for each response, and hands every response to the one who waits for it.

use vstd::prelude::*;

use crate::autofill::assertion::PasskeyAssertionRequest;
use crate::autofill::assertion::PasskeyAssertionWithoutUserInterfaceRequest;
use crate::autofill::envelope::payload_view;
use crate::autofill::envelope::CommandMessage;
use crate::autofill::envelope::EnvelopeModel;
use crate::autofill::envelope::NO_CALLBACK_INDICATOR;
use crate::autofill::envelope::SerializedMessage;
use crate::autofill::lock_status::LockStatusRequest;
use crate::autofill::registration::PasskeyRegistrationRequest;
use crate::autofill::window_handle_query::WindowHandleQueryRequest;
use crate::autofill::BitwardenError;
use crate::autofill::CallbackError;
use crate::autofill::ConnectionStatus;
use crate::autofill::ErrorModel;
use crate::autofill::NativeStatus;
use crate::json::json_rendered;
use crate::json::Json;
use crate::json::JsonValue;
use crate::pending::counter_after;
use crate::pending::PendingTable;

verus! {

/// What became of a request that a caller made.
pub enum SendOutcome<S> {
    /// The text is to be sent; a response will carry the sequence number,
    /// which is zero where nobody waits for one.
    Send { sequence_number: u32, text: String },
    /// Nothing is to be sent and nothing was remembered: the sink, where
    /// there is one, is to be told the error.
    Rejected { sink: Option<S>, error: BitwardenError },
}

/// What a message from the server means.
pub enum Incoming<S> {
    /// The connection is up.
    Connected,
    /// The connection is down.
    Disconnected,
    /// The response to a request: the sink is to be told the value, once.
    Response { sink: S, deadline: u64, value: Result<JsonValue, BitwardenError> },
    /// A response that nobody waits for: it is dropped.
    Unknown { sequence_number: u32 },
    /// A text that is no message: it is dropped.
    Malformed,
}

/// A client of the autofill service of the desktop application. Requests made
/// while the connection is down fail at once.
pub struct AutofillProviderClient<S> {
    response_callbacks: PendingTable<S>,
    connection_status: bool,
}

/// The message that reports a request which could not be sent.
pub open spec fn send_failed_error() -> ErrorModel {
    ErrorModel::Internal("send failed"@)
}

/// The message that reports that no sequence number is free.
pub open spec fn queue_full_error() -> ErrorModel {
    ErrorModel::Internal("too many requests in flight"@)
}

/// Whether an outcome is the one that a request has, with the state of the
/// client before and after it. While the connection is down the request is
/// rejected at once and the client is left as it was: nothing is remembered
/// and the counter stands. Otherwise the text to send is the envelope of the
/// message; with a sink, the sequence number is fresh, the sink and the
/// deadline are remembered under it and the counter moves past it, and
/// without, the sequence number is zero and the client is left as it was. A
/// request with a sink is also rejected where every sequence number is in
/// flight.
pub open spec fn request_sent<S>(
    before: AutofillProviderClient<S>,
    after: AutofillProviderClient<S>,
    message: Json,
    sink: Option<S>,
    deadline: u64,
    outcome: SendOutcome<S>,
) -> bool {
    &&& after.connected() == before.connected()
    &&& match outcome {
        SendOutcome::Rejected { sink: returned, error } => {
            &&& returned == sink
            &&& after == before
            &&& if before.connected() {
                &&& sink is Some
                &&& forall|other: u32| other != 0 ==> before.in_flight(other)
                &&& error@ == queue_full_error()
            } else {
                error@ == ErrorModel::Disconnected
            }
        },
        SendOutcome::Send { sequence_number, text } => {
            &&& before.connected()
            &&& text@ == json_rendered(
                (EnvelopeModel::Message { sequence_number, value: Ok(message) }).json(),
            )
            &&& match sink {
                Some(waiting) => {
                    &&& sequence_number != NO_CALLBACK_INDICATOR
                    &&& before.pending().is_next(sequence_number)
                    &&& after.sinks() == before.sinks().insert(sequence_number, waiting)
                    &&& after.deadlines() == before.deadlines().insert(sequence_number, deadline)
                    &&& after.counter() == counter_after(sequence_number)
                },
                None => {
                    &&& sequence_number == NO_CALLBACK_INDICATOR
                    &&& after == before
                },
            }
        },
    }
}

/// The object that asks for the native window: its marker is empty.
pub open spec fn window_handle_query() -> Json {
    Json::Object(seq![("windowHandle"@, Json::Text(Seq::empty()))])
}

/// Disconnected fast-fail: while the connection is down, every request is
/// rejected with the error `Disconnected`; nothing is remembered, and the
/// counter of sequence numbers stands where it stood.
pub proof fn lemma_disconnected_fails_fast<S>(
    before: AutofillProviderClient<S>,
    after: AutofillProviderClient<S>,
    message: Json,
    sink: Option<S>,
    deadline: u64,
    outcome: SendOutcome<S>,
)
    requires
        !before.connected(),
        request_sent(before, after, message, sink, deadline, outcome),
    ensures
        outcome is Rejected,
        outcome->error@ == ErrorModel::Disconnected,
        outcome->Rejected_sink == sink,
        after.sinks() == before.sinks(),
        after.deadlines() == before.deadlines(),
        after.counter() == before.counter(),
{
}

impl<S> AutofillProviderClient<S> {
    /// The requests in flight.
    pub closed spec fn pending(&self) -> PendingTable<S> {
        self.response_callbacks
    }

    /// Whether the connection is up.
    pub closed spec fn connected(&self) -> bool {
        self.connection_status
    }

    /// Whether a request with this sequence number waits for its response.
    pub open spec fn in_flight(&self, sequence_number: u32) -> bool {
        self.pending().in_flight(sequence_number)
    }

    /// Who waits for the response with each sequence number in flight.
    pub open spec fn sinks(&self) -> Map<u32, S> {
        self.pending().sinks()
    }

    /// When the wait for the response with each sequence number in flight
    /// ends.
    pub open spec fn deadlines(&self) -> Map<u32, u64> {
        self.pending().deadlines()
    }

    /// The number that the next request gets, unless it is in flight or zero.
    pub open spec fn counter(&self) -> u32 {
        self.pending().counter()
    }

    /// A client that is not connected, with nothing in flight. The first
    /// request will get the sequence number 1.
    pub fn new() -> (client: Self)
        ensures
            !client.connected(),
            client.counter() == 1,
            client.sinks() == Map::<u32, S>::empty(),
            client.deadlines() == Map::<u32, u64>::empty(),
    {
        AutofillProviderClient { response_callbacks: PendingTable::new(), connection_status: false }
    }

    /// Return the status of this client's connection to the desktop client.
    pub fn get_connection_status(&self) -> (status: ConnectionStatus)
        ensures
            status == (if self.connected() {
                ConnectionStatus::Connected
            } else {
                ConnectionStatus::Disconnected
            }),
    {
        ConnectionStatus::from_connected(self.connection_status)
    }

    /// The number of requests in flight.
    pub fn pending_count(&self) -> (count: usize)
        ensures
            count == self.pending().numbers().len(),
    {
        self.response_callbacks.len()
    }

    /// Remembers a sink and the deadline of its wait under a fresh sequence
    /// number, which is returned. Where every sequence number is in flight,
    /// the sink is handed back and the client is left as it was.
    pub fn add_callback(&mut self, sink: S, deadline: u64) -> (added: Result<u32, S>)
        ensures
            final(self).connected() == old(self).connected(),
            match added {
                Ok(number) => {
                    &&& number != NO_CALLBACK_INDICATOR
                    &&& old(self).pending().is_next(number)
                    &&& final(self).sinks() == old(self).sinks().insert(number, sink)
                    &&& final(self).deadlines() == old(self).deadlines().insert(number, deadline)
                    &&& final(self).counter() == counter_after(number)
                },
                Err(returned) => {
                    &&& returned == sink
                    &&& *final(self) == *old(self)
                    &&& forall|other: u32| other != 0 ==> old(self).in_flight(other)
                },
            },
    {
        self.response_callbacks.add(sink, deadline)
    }

    /// Forgets a request whose caller waits no more, and hands out its sink.
    /// A response that arrives later finds nobody.
    pub fn cancel(&mut self, sequence_number: u32) -> (sink: Option<S>)
        ensures
            final(self).connected() == old(self).connected(),
            final(self).counter() == old(self).counter(),
            final(self).sinks() == old(self).sinks().remove(sequence_number),
            final(self).deadlines() == old(self).deadlines().remove(sequence_number),
            match sink {
                Some(waiting) => old(self).in_flight(sequence_number) && waiting == old(
                    self,
                ).sinks()[sequence_number],
                None => !old(self).in_flight(sequence_number),
            },
    {
        match self.response_callbacks.take(sequence_number) {
            Some(request) => Some(request.sink),
            None => None,
        }
    }

    /// Forgets one request whose deadline has passed, the one with the least
    /// sequence number, and hands out its sink with the error to tell it.
    /// Returns nothing once no deadline has passed.
    pub fn expire(&mut self, now: u64) -> (expired: Option<(u32, S, CallbackError)>)
        ensures
            final(self).connected() == old(self).connected(),
            final(self).counter() == old(self).counter(),
            match expired {
                Some((sequence_number, sink, error)) => {
                    &&& old(self).in_flight(sequence_number)
                    &&& old(self).deadlines()[sequence_number] <= now
                    &&& forall|other: u32|
                        old(self).in_flight(other) && other < sequence_number ==> old(
                            self,
                        ).deadlines()[other] > now
                    &&& sink == old(self).sinks()[sequence_number]
                    &&& error == CallbackError::Timeout
                    &&& final(self).sinks() == old(self).sinks().remove(sequence_number)
                    &&& final(self).deadlines() == old(self).deadlines().remove(sequence_number)
                },
                None => {
                    &&& *final(self) == *old(self)
                    &&& forall|other: u32|
                        old(self).in_flight(other) ==> old(self).deadlines()[other] > now
                },
            },
    {
        match self.response_callbacks.take_expired(now) {
            Some(request) => Some((request.sequence_number, request.sink, CallbackError::Timeout)),
            None => None,
        }
    }

    /// Prepares a request for sending. While the connection is down, nothing
    /// is remembered and the request is rejected at once. Otherwise the
    /// request gets a fresh sequence number under which the sink is
    /// remembered, or the number zero where no sink waits for a response.
    pub fn send_message(&mut self, message: JsonValue, sink: Option<S>, deadline: u64) -> (outcome:
        SendOutcome<S>)
        ensures
            request_sent(*old(self), *final(self), message@, sink, deadline, outcome),
    {
        if !self.connection_status {
            return SendOutcome::Rejected { sink, error: BitwardenError::Disconnected };
        }
        let sequence_number = match sink {
            Some(waiting) => match self.add_callback(waiting, deadline) {
                Ok(number) => number,
                Err(returned) => {
                    return SendOutcome::Rejected {
                        sink: Some(returned),
                        error: BitwardenError::Internal("too many requests in flight".to_owned()),
                    };
                },
            },
            None => NO_CALLBACK_INDICATOR,
        };
        let text = send_message_helper(sequence_number, message);
        SendOutcome::Send { sequence_number, text }
    }

    /// Request the desktop client's lock status.
    pub fn get_lock_status(&mut self, sink: S, deadline: u64) -> (outcome: SendOutcome<S>)
        ensures
            request_sent(
                *old(self),
                *final(self),
                (LockStatusRequest {  }).json(),
                Some(sink),
                deadline,
                outcome,
            ),
    {
        self.send_message((LockStatusRequest {  }).to_json(), Some(sink), deadline)
    }

    /// Requests details about the desktop client's native window.
    pub fn get_window_handle(&mut self, sink: S, deadline: u64) -> (outcome: SendOutcome<S>)
        ensures
            request_sent(
                *old(self),
                *final(self),
                window_handle_query(),
                Some(sink),
                deadline,
                outcome,
            ),
    {
        let request = WindowHandleQueryRequest::new();
        self.send_message(request.to_json(), Some(sink), deadline)
    }

    /// Send a one-way key-value message to the desktop client.
    pub fn send_native_status(&mut self, key: String, value: String) -> (outcome: SendOutcome<S>)
        ensures
            request_sent(
                *old(self),
                *final(self),
                (NativeStatus { key, value }).json(),
                None,
                0,
                outcome,
            ),
    {
        let status = NativeStatus { key, value };
        self.send_message(status.to_json(), None, 0)
    }

    /// Send a request to create a new passkey to the desktop client.
    pub fn prepare_passkey_registration(
        &mut self,
        request: &PasskeyRegistrationRequest,
        sink: S,
        deadline: u64,
    ) -> (outcome: SendOutcome<S>)
        ensures
            request_sent(*old(self), *final(self), request.json(), Some(sink), deadline, outcome),
    {
        self.send_message(request.to_json(), Some(sink), deadline)
    }

    /// Send a request to assert a passkey to the desktop client.
    pub fn prepare_passkey_assertion(
        &mut self,
        request: &PasskeyAssertionRequest,
        sink: S,
        deadline: u64,
    ) -> (outcome: SendOutcome<S>)
        ensures
            request_sent(*old(self), *final(self), request.json(), Some(sink), deadline, outcome),
    {
        self.send_message(request.to_json(), Some(sink), deadline)
    }

    /// Send a request to assert a passkey, without prompting the user, to
    /// the desktop client.
    pub fn prepare_passkey_assertion_without_user_interface(
        &mut self,
        request: &PasskeyAssertionWithoutUserInterfaceRequest,
        sink: S,
        deadline: u64,
    ) -> (outcome: SendOutcome<S>)
        ensures
            request_sent(*old(self), *final(self), request.json(), Some(sink), deadline, outcome),
    {
        self.send_message(request.to_json(), Some(sink), deadline)
    }

    /// Takes back a request that could not be sent: it is forgotten, and its
    /// sink is to be told the error that is handed out with it.
    pub fn send_failed(&mut self, sequence_number: u32) -> (failed: Option<(S, BitwardenError)>)
        ensures
            final(self).connected() == old(self).connected(),
            final(self).counter() == old(self).counter(),
            final(self).sinks() == old(self).sinks().remove(sequence_number),
            final(self).deadlines() == old(self).deadlines().remove(sequence_number),
            match failed {
                Some((sink, error)) => old(self).in_flight(sequence_number) && sink == old(
                    self,
                ).sinks()[sequence_number] && error@ == send_failed_error(),
                None => !old(self).in_flight(sequence_number),
            },
    {
        match self.response_callbacks.take(sequence_number) {
            Some(request) => Some(
                (request.sink, BitwardenError::Internal("send failed".to_owned())),
            ),
            None => None,
        }
    }

    /// Records whether the connection is up.
    fn set_connected(&mut self, connected: bool)
        ensures
            final(self).connected() == connected,
            final(self).pending() == old(self).pending(),
    {
        self.connection_status = connected;
    }

    /// Takes in one message from the server. A control message sets the
    /// connection status. A response is handed to the sink that waits for its
    /// sequence number, and that request is forgotten; a response that nobody
    /// waits for, and a text that is no message, are dropped.
    pub fn receive(&mut self, message: &str) -> (incoming: Incoming<S>)
        ensures
            match EnvelopeModel::read_text(message@) {
                None => incoming is Malformed && *final(self) == *old(self),
                Some(EnvelopeModel::Command(CommandMessage::Connected)) => incoming is Connected
                    && final(self).connected() && final(self).pending() == old(self).pending(),
                Some(EnvelopeModel::Command(CommandMessage::Disconnected)) => incoming
                    is Disconnected && !final(self).connected() && final(self).pending() == old(
                    self,
                ).pending(),
                Some(EnvelopeModel::Message { sequence_number, value }) => {
                    &&& final(self).connected() == old(self).connected()
                    &&& final(self).counter() == old(self).counter()
                    &&& final(self).sinks() == old(self).sinks().remove(sequence_number)
                    &&& final(self).deadlines() == old(self).deadlines().remove(sequence_number)
                    &&& if old(self).in_flight(sequence_number) {
                        &&& incoming is Response
                        &&& incoming->sink == old(self).sinks()[sequence_number]
                        &&& incoming->deadline == old(self).deadlines()[sequence_number]
                        &&& payload_view(incoming->value) == value
                    } else {
                        incoming == (Incoming::<S>::Unknown { sequence_number })
                    }
                },
            },
    {
        match SerializedMessage::parse(message) {
            None => Incoming::Malformed,
            Some(SerializedMessage::Command(CommandMessage::Connected)) => {
                self.set_connected(true);
                Incoming::Connected
            },
            Some(SerializedMessage::Command(CommandMessage::Disconnected)) => {
                self.set_connected(false);
                Incoming::Disconnected
            },
            Some(SerializedMessage::Message { sequence_number, value }) => {
                match self.response_callbacks.take(sequence_number) {
                    Some(request) => Incoming::Response {
                        sink: request.sink,
                        deadline: request.deadline,
                        value,
                    },
                    None => Incoming::Unknown { sequence_number },
                }
            },
        }
    }
}

/// The text of a request: the envelope with the sequence number and the
/// message as its value.
pub fn send_message_helper(sequence_number: u32, message: JsonValue) -> (text: String)
    ensures
        text@ == json_rendered(
            (EnvelopeModel::Message { sequence_number, value: Ok(message@) }).json(),
        ),
{
    SerializedMessage::message(sequence_number, Ok(message)).render()
}

} // verus!
