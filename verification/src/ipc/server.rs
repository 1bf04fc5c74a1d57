//! The clients of a server: each gets a number when it connects, and a
//! message that is sent goes to all that are connected.

use vstd::prelude::*;

use crate::ipc::Message;
use crate::ipc::MessageType;

verus! {

/// The clients that are connected to a server, in the order in which they
/// connected. Client ids are handed out in increasing order and never again.
pub struct ClientRegistry {
    next_client_id: u32,
    connected: Vec<u32>,
}

impl ClientRegistry {
    /// The ids of the clients that are connected, in increasing order.
    pub closed spec fn clients(&self) -> Seq<u32> {
        self.connected@
    }

    /// The id that the next client gets.
    pub closed spec fn next_id(&self) -> u32 {
        self.next_client_id
    }

    /// The invariant: the ids of the connected clients are strictly
    /// increasing, and all lie below the id that the next client gets.
    #[verifier::type_invariant]
    pub closed spec fn wf(&self) -> bool {
        &&& forall|i: int, j: int|
            0 <= i < j < self.connected@.len() ==> self.connected@[i] < self.connected@[j]
        &&& forall|i: int|
            0 <= i < self.connected@.len() ==> self.connected@[i] < self.next_client_id
    }

    /// A registry without clients; the first client gets the id 0.
    pub fn new() -> (registry: ClientRegistry)
        ensures
            registry.clients() == Seq::<u32>::empty(),
            registry.next_id() == 0,
    {
        ClientRegistry { next_client_id: 0, connected: Vec::new() }
    }

    /// Takes in a client that connected: it gets the next id, and the event
    /// that reports it is handed out. Where the ids are used up, the client
    /// is turned away.
    pub fn connect(&mut self) -> (event: Option<Message>)
        ensures
            match event {
                Some(message) => {
                    &&& old(self).next_id() < u32::MAX
                    &&& message.client_id == old(self).next_id()
                    &&& message.kind == MessageType::Connected
                    &&& message.message is None
                    &&& final(self).next_id() == old(self).next_id() + 1
                    &&& final(self).clients() == old(self).clients().push(message.client_id)
                },
                None => old(self).next_id() == u32::MAX && *final(self) == *old(self),
            },
    {
        proof {
            use_type_invariant(&*self);
        }
        if self.next_client_id == u32::MAX {
            return None;
        }
        let client_id = self.next_client_id;
        let mut connected: Vec<u32> = Vec::new();
        core::mem::swap(&mut self.connected, &mut connected);
        connected.push(client_id);
        self.next_client_id = client_id + 1;
        self.connected = connected;
        Some(Message { client_id, kind: MessageType::Connected, message: None })
    }

    /// Takes out a client that disconnected, and hands out the event that
    /// reports it; a client that is not connected is passed over.
    pub fn disconnect(&mut self, client_id: u32) -> (event: Option<Message>)
        ensures
            final(self).next_id() == old(self).next_id(),
            match event {
                Some(message) => {
                    &&& old(self).clients().contains(client_id)
                    &&& message.client_id == client_id
                    &&& message.kind == MessageType::Disconnected
                    &&& message.message is None
                    &&& !final(self).clients().contains(client_id)
                    &&& forall|other: u32|
                        other != client_id ==> (final(self).clients().contains(other) <==> old(
                            self,
                        ).clients().contains(other))
                },
                None => !old(self).clients().contains(client_id) && *final(self) == *old(self),
            },
    {
        proof {
            use_type_invariant(&*self);
        }
        let ghost before = self.connected@;
        let mut i: usize = 0;
        while i < self.connected.len()
            invariant
                i <= self.connected@.len(),
                *self == *old(self),
                before == self.connected@,
                forall|a: int, b: int| 0 <= a < b < before.len() ==> before[a] < before[b],
                forall|a: int| 0 <= a < before.len() ==> before[a] < self.next_client_id,
                forall|j: int| 0 <= j < i ==> before[j] != client_id,
            decreases self.connected@.len() - i,
        {
            if self.connected[i] == client_id {
                let mut connected: Vec<u32> = Vec::new();
                core::mem::swap(&mut self.connected, &mut connected);
                connected.remove(i);
                assert(connected@ =~= before.remove(i as int));
                assert forall|a: int, b: int| 0 <= a < b < connected@.len() implies connected@[a]
                    < connected@[b] by {
                    let a0 = if a < i { a } else { a + 1 };
                    let b0 = if b < i { b } else { b + 1 };
                    assert(before[a0] < before[b0]);
                }
                assert forall|a: int| 0 <= a < connected@.len() implies connected@[a]
                    < self.next_client_id by {
                    let a0 = if a < i { a } else { a + 1 };
                    assert(before[a0] < self.next_client_id);
                }
                self.connected = connected;
                proof {
                    let after = self.connected@;
                    assert(!after.contains(client_id)) by {
                        if after.contains(client_id) {
                            let a = choose|a: int| 0 <= a < after.len() && after[a] == client_id;
                            let a0 = if a < i { a } else { a + 1 };
                            assert(before[a0] == client_id);
                            if a0 < i {
                                assert(before[a0] < before[i as int]);
                            } else {
                                assert(before[i as int] < before[a0]);
                            }
                        }
                    }
                    assert forall|other: u32| other != client_id implies (after.contains(other)
                        <==> before.contains(other)) by {
                        if after.contains(other) {
                            let a = choose|a: int| 0 <= a < after.len() && after[a] == other;
                            let a0 = if a < i { a } else { a + 1 };
                            assert(before[a0] == other);
                        }
                        if before.contains(other) {
                            let a = choose|a: int| 0 <= a < before.len() && before[a] == other;
                            if a < i {
                                assert(after[a] == other);
                            } else {
                                assert(after[a - 1] == other);
                            }
                        }
                    }
                }
                return Some(Message { client_id, kind: MessageType::Disconnected, message: None });
            }
            i += 1;
        }
        None
    }

    /// The event that reports a message of a client.
    pub fn message(client_id: u32, text: String) -> (event: Message)
        ensures
            event.client_id == client_id,
            event.kind == MessageType::Message,
            event.message == Some(text),
    {
        Message { client_id, kind: MessageType::Message, message: Some(text) }
    }

    /// The clients that a message is sent to: all that are connected.
    pub fn send(&self) -> (recipients: Vec<u32>)
        ensures
            recipients@ == self.clients(),
    {
        let mut recipients: Vec<u32> = Vec::new();
        let mut i: usize = 0;
        while i < self.connected.len()
            invariant
                i <= self.connected@.len(),
                recipients@ == self.connected@.subrange(0, i as int),
            decreases self.connected@.len() - i,
        {
            recipients.push(self.connected[i]);
            i += 1;
        }
        assert(recipients@ =~= self.connected@);
        recipients
    }

    /// Client ids are unique: no two connected clients have the same id.
    pub proof fn lemma_ids_unique(&self)
        requires
            self.wf(),
        ensures
            self.clients().no_duplicates(),
    {
        let clients = self.clients();
        assert forall|i: int, j: int|
            0 <= i < clients.len() && 0 <= j < clients.len() && i != j implies clients[i]
            != clients[j] by {
            if i < j {
                assert(clients[i] < clients[j]);
            } else {
                assert(clients[j] < clients[i]);
            }
        }
    }
}

} // verus!
