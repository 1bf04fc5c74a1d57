//! The connection loop of a client: when to try again, and what each event
//! of a live connection calls for.

use vstd::prelude::*;
use vstd::utf8::decode_utf8;
use vstd::utf8::valid_utf8;

use crate::ipc::framing::FramerModel;
use crate::ipc::framing::JsonFramer;

verus! {

/// How often a connection is tried before the client gives up.
pub const MAX_CONNECTION_ATTEMPTS: u32 = 20;

/// How many seconds pass between two attempts.
pub const RETRY_DELAY_SECONDS: u64 = 5;

/// The size of the buffer that messages of the server are read into.
pub const READ_BUFFER_SIZE: usize = 8192;

/// The message that tells the owner that the connection is up.
pub const CONNECTED_MESSAGE: &'static str = "{\"command\":\"connected\"}";

/// The message that tells the owner that the connection is down.
pub const DISCONNECTED_MESSAGE: &'static str = "{\"command\":\"disconnected\"}";

/// The text that `String::from_utf8_lossy` makes of bytes: invalid sequences
/// become replacement characters.
pub uninterp spec fn utf8_lossy_text(bytes: Seq<u8>) -> Seq<char>;

/// Counts failed attempts to connect.
#[derive(Debug, Clone, Copy, PartialEq, Eq)]
pub struct ReconnectPolicy {
    pub connection_failures: u32,
}

/// What follows a failed attempt to connect.
#[derive(Debug, Clone, Copy, PartialEq, Eq)]
pub enum Retry {
    /// Wait this many seconds, then try again.
    After { seconds: u64 },
    /// Stay disconnected.
    GiveUp,
}

/// What a read from the server gave.
#[derive(Debug, Clone, PartialEq, Eq)]
pub enum ReadOutcome {
    /// The read failed.
    Failed,
    /// The server closed the connection: the read gave no byte.
    Closed,
    /// The bytes that were read.
    Data(Vec<u8>),
}

/// An event of a live connection.
#[derive(Debug, Clone, PartialEq, Eq)]
pub enum ClientEvent {
    /// The connection was made.
    Connected,
    /// The owner handed over a message to send, or closed its channel.
    Outgoing(Option<String>),
    /// A read from the server ended.
    Incoming(ReadOutcome),
}

/// What an event of a live connection calls for.
#[derive(Debug, Clone, PartialEq, Eq)]
pub enum ClientAction {
    /// Hand the text to the owner, and go on.
    Notify(String),
    /// Write the text to the server, and go on.
    Write(String),
    /// Hand the text to the owner, and end the connection.
    NotifyAndStop(String),
    /// End the connection.
    Stop,
}

/// `ClientAction` with its text as a sequence of characters.
pub enum ClientActionModel {
    Notify(Seq<char>),
    Write(Seq<char>),
    NotifyAndStop(Seq<char>),
    Stop,
}

impl View for ClientAction {
    type V = ClientActionModel;

    open spec fn view(&self) -> ClientActionModel {
        match self {
            ClientAction::Notify(text) => ClientActionModel::Notify(text@),
            ClientAction::Write(text) => ClientActionModel::Write(text@),
            ClientAction::NotifyAndStop(text) => ClientActionModel::NotifyAndStop(text@),
            ClientAction::Stop => ClientActionModel::Stop,
        }
    }
}

/// Calls `String::from_utf8_lossy` and copies the text. The contract names
/// the text and says, as the documentation does, that valid UTF-8 is
/// decoded as it is.
#[verifier::external_body]
fn text_from_utf8_lossy(bytes: &[u8]) -> (text: String)
    ensures
        text@ == utf8_lossy_text(bytes@),
        valid_utf8(bytes@) ==> text@ == decode_utf8(bytes@),
{
    String::from_utf8_lossy(bytes).to_string()
}

/// What follows the failed attempt that brings the count to `failures`: the
/// client gives up at the twentieth failure, and waits five seconds before
/// any other attempt.
pub open spec fn retry_after(failures: u32) -> Retry {
    if failures >= MAX_CONNECTION_ATTEMPTS {
        Retry::GiveUp
    } else {
        Retry::After { seconds: RETRY_DELAY_SECONDS }
    }
}

/// The actions that hand the messages of the server to the owner, each as
/// text.
pub open spec fn notifications(messages: Seq<Seq<u8>>) -> Seq<ClientActionModel> {
    Seq::new(messages.len(), |i: int| ClientActionModel::Notify(utf8_lossy_text(messages[i])))
}

/// What an event of a live connection calls for, where the reader is in the
/// given state. The owner is told when the connection comes up and when it
/// goes down; what the owner sends is written to the server, and every
/// message that the bytes of the server complete is handed to the owner as
/// text. The connection ends when the owner closes its channel, when a read
/// fails, and when the server closes the connection.
pub open spec fn actions_for(reader: FramerModel, event: ClientEvent) -> Seq<ClientActionModel> {
    match event {
        ClientEvent::Connected => seq![ClientActionModel::Notify(CONNECTED_MESSAGE@)],
        ClientEvent::Outgoing(Some(message)) => seq![ClientActionModel::Write(message@)],
        ClientEvent::Outgoing(None) => seq![ClientActionModel::Stop],
        ClientEvent::Incoming(ReadOutcome::Failed) => seq![
            ClientActionModel::NotifyAndStop(DISCONNECTED_MESSAGE@),
        ],
        ClientEvent::Incoming(ReadOutcome::Closed) => seq![
            ClientActionModel::NotifyAndStop(DISCONNECTED_MESSAGE@),
        ],
        ClientEvent::Incoming(ReadOutcome::Data(bytes)) => notifications(reader.scan(bytes@).1),
    }
}

/// The state of the reader after an event: only bytes of the server move it.
pub open spec fn reader_after(reader: FramerModel, event: ClientEvent) -> FramerModel {
    match event {
        ClientEvent::Incoming(ReadOutcome::Data(bytes)) => reader.scan(bytes@).0,
        _ => reader,
    }
}

/// The views of a list of actions.
pub open spec fn action_models(actions: Seq<ClientAction>) -> Seq<ClientActionModel> {
    Seq::new(actions.len(), |i: int| actions[i]@)
}

/// A live connection of a client: it remembers the part of a message that
/// has arrived so far.
pub struct ClientConnection {
    framer: JsonFramer,
}

impl ReconnectPolicy {
    /// A policy that has seen no failure yet.
    pub fn new() -> (policy: ReconnectPolicy)
        ensures
            policy.connection_failures == 0,
    {
        ReconnectPolicy { connection_failures: 0 }
    }

    /// Counts one more failed attempt, and says what follows it.
    pub fn connect(&mut self) -> (retry: Retry)
        ensures
            final(self).connection_failures == (if old(self).connection_failures < u32::MAX {
                (old(self).connection_failures + 1) as u32
            } else {
                u32::MAX
            }),
            retry == retry_after(final(self).connection_failures),
    {
        if self.connection_failures < u32::MAX {
            self.connection_failures = self.connection_failures + 1;
        }
        if self.connection_failures >= MAX_CONNECTION_ATTEMPTS {
            Retry::GiveUp
        } else {
            Retry::After { seconds: RETRY_DELAY_SECONDS }
        }
    }
}

impl ClientConnection {
    /// The state of the reader.
    pub closed spec fn reader(&self) -> FramerModel {
        self.framer@
    }

    /// A connection on which nothing has arrived yet.
    pub fn new() -> (connection: ClientConnection)
        ensures
            connection.reader() == FramerModel::idle(),
    {
        ClientConnection { framer: JsonFramer::new() }
    }

    /// Decides what an event of the connection calls for: the actions to
    /// take, in order.
    pub fn connect_inner(&mut self, event: ClientEvent) -> (actions: Vec<ClientAction>)
        ensures
            action_models(actions@) == actions_for(old(self).reader(), event),
            final(self).reader() == reader_after(old(self).reader(), event),
    {
        let mut actions: Vec<ClientAction> = Vec::new();
        match event {
            ClientEvent::Connected => {
                actions.push(ClientAction::Notify(CONNECTED_MESSAGE.to_owned()));
            },
            ClientEvent::Outgoing(Some(message)) => {
                actions.push(ClientAction::Write(message));
            },
            ClientEvent::Outgoing(None) => {
                actions.push(ClientAction::Stop);
            },
            ClientEvent::Incoming(ReadOutcome::Failed) => {
                actions.push(ClientAction::NotifyAndStop(DISCONNECTED_MESSAGE.to_owned()));
            },
            ClientEvent::Incoming(ReadOutcome::Closed) => {
                actions.push(ClientAction::NotifyAndStop(DISCONNECTED_MESSAGE.to_owned()));
            },
            ClientEvent::Incoming(ReadOutcome::Data(bytes)) => {
                let messages = self.framer.push(bytes.as_slice());
                let ghost cut = messages.deep_view();
                let mut i: usize = 0;
                assert(action_models(actions@) =~= notifications(cut.subrange(0, 0)));
                while i < messages.len()
                    invariant
                        i <= messages@.len(),
                        actions@.len() == i,
                        cut == messages.deep_view(),
                        cut.len() == messages@.len(),
                        action_models(actions@) == notifications(cut.subrange(0, i as int)),
                    decreases messages@.len() - i,
                {
                    let text = text_from_utf8_lossy(messages[i].as_slice());
                    let ghost earlier = actions@;
                    actions.push(ClientAction::Notify(text));
                    proof {
                        let wanted = notifications(cut.subrange(0, i + 1));
                        assert(cut[i as int] == messages@[i as int]@);
                        assert(action_models(actions@).len() == wanted.len());
                        assert forall|j: int| 0 <= j < wanted.len() implies action_models(
                            actions@,
                        )[j] == wanted[j] by {
                            if j < i {
                                assert(actions@[j] == earlier[j]);
                                assert(action_models(earlier)[j] == notifications(
                                    cut.subrange(0, i as int),
                                )[j]);
                                assert(cut.subrange(0, i as int)[j] == cut.subrange(0, i + 1)[j]);
                            } else {
                                assert(cut.subrange(0, i + 1)[j] == cut[i as int]);
                            }
                        }
                        assert(action_models(actions@) =~= wanted);
                    }
                    i += 1;
                }
                assert(cut.subrange(0, messages@.len() as int) =~= cut);
                return actions;
            },
        }
        assert(action_models(actions@) =~= actions_for(old(self).reader(), event));
        actions
    }
}

/// What a read of `count` bytes into the buffer gave: no byte means that
/// the server closed the connection.
pub fn read_outcome(buffer: &[u8], count: usize) -> (outcome: ReadOutcome)
    requires
        count <= buffer@.len(),
    ensures
        match outcome {
            ReadOutcome::Closed => count == 0,
            ReadOutcome::Data(bytes) => count > 0 && bytes@ == buffer@.subrange(0, count as int),
            ReadOutcome::Failed => false,
        },
{
    if count == 0 {
        ReadOutcome::Closed
    } else {
        let part = vstd::slice::slice_subrange(buffer, 0, count);
        ReadOutcome::Data(vstd::slice::slice_to_vec(part))
    }
}

} // verus!
