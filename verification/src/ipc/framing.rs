//! Messages on a channel without length prefixes: the reader cuts the bytes
//! that arrive into JSON objects, however the bytes were split on the way.

use vstd::prelude::*;

verus! {

/// The most bytes that one message may have.
pub const MAX_MESSAGE_SIZE: usize = 8192;

/// What a reader remembers between two reads.
pub struct FramerModel {
    /// The bytes of the message that is being read.
    pub pending: Seq<u8>,
    /// How many objects are open.
    pub depth: nat,
    /// Whether a string is open.
    pub in_string: bool,
    /// Whether the last byte was a backslash in a string.
    pub escaped: bool,
}

/// A reader that cuts a stream of bytes into JSON objects. Bytes between
/// two objects are passed over, and a message that grows beyond
/// `MAX_MESSAGE_SIZE` bytes is dropped.
pub struct JsonFramer {
    pending: Vec<u8>,
    depth: usize,
    in_string: bool,
    escaped: bool,
}

impl FramerModel {
    /// The state between two messages.
    pub open spec fn idle() -> FramerModel {
        FramerModel { pending: Seq::empty(), depth: 0, in_string: false, escaped: false }
    }

    /// Whether the state is one that a reader can be in.
    pub open spec fn wf(self) -> bool {
        if self.depth == 0 {
            self == FramerModel::idle()
        } else {
            &&& self.depth <= self.pending.len() < MAX_MESSAGE_SIZE
            &&& self.escaped ==> self.in_string
        }
    }

    /// The state after one more byte, and the message that the byte
    /// completes, if it completes one. Between messages only an opening
    /// brace counts. Within a message, braces count outside strings, and a
    /// quotation mark opens or closes a string unless a backslash stands
    /// before it in the string. The brace that closes the outermost object
    /// completes the message. A message that is full and not complete is
    /// dropped.
    pub open spec fn step(self, byte: u8) -> (FramerModel, Option<Seq<u8>>) {
        if self.depth == 0 {
            if byte == 0x7b {
                (
                    FramerModel {
                        pending: seq![byte],
                        depth: 1,
                        in_string: false,
                        escaped: false,
                    },
                    None,
                )
            } else {
                (self, None)
            }
        } else {
            let pending = self.pending.push(byte);
            let next = if self.escaped {
                FramerModel { pending, escaped: false, ..self }
            } else if self.in_string {
                if byte == 0x5c {
                    FramerModel { pending, escaped: true, ..self }
                } else if byte == 0x22 {
                    FramerModel { pending, in_string: false, ..self }
                } else {
                    FramerModel { pending, ..self }
                }
            } else if byte == 0x22 {
                FramerModel { pending, in_string: true, ..self }
            } else if byte == 0x7b {
                FramerModel { pending, depth: self.depth + 1, ..self }
            } else if byte == 0x7d {
                FramerModel { pending, depth: (self.depth - 1) as nat, ..self }
            } else {
                FramerModel { pending, ..self }
            };
            if next.depth == 0 {
                (FramerModel::idle(), Some(pending))
            } else if pending.len() >= MAX_MESSAGE_SIZE {
                (FramerModel::idle(), None)
            } else {
                (next, None)
            }
        }
    }

    /// The state after a run of bytes, and the messages that the bytes
    /// complete, in order.
    pub open spec fn scan(self, bytes: Seq<u8>) -> (FramerModel, Seq<Seq<u8>>)
        decreases bytes.len(),
    {
        if bytes.len() == 0 {
            (self, Seq::empty())
        } else {
            let (before, messages) = self.scan(bytes.drop_last());
            let (after, message) = before.step(bytes.last());
            match message {
                Some(complete) => (after, messages.push(complete)),
                None => (after, messages),
            }
        }
    }

    /// A step keeps the state one that a reader can be in, and a message
    /// that it completes is not longer than the limit.
    pub proof fn lemma_step_wf(self, byte: u8)
        requires
            self.wf(),
        ensures
            self.step(byte).0.wf(),
            self.step(byte).1 matches Some(message) ==> 0 < message.len() <= MAX_MESSAGE_SIZE,
    {
    }

    /// Partial reads are concatenated: bytes that arrive in two reads are cut
    /// as if they had arrived in one.
    pub proof fn lemma_scan_concat(self, first: Seq<u8>, second: Seq<u8>)
        ensures
            self.scan(first + second).0 == self.scan(first).0.scan(second).0,
            self.scan(first + second).1 == self.scan(first).1 + self.scan(first).0.scan(second).1,
        decreases second.len(),
    {
        if second.len() == 0 {
            assert(first + second =~= first);
            assert(self.scan(first).1 + Seq::<Seq<u8>>::empty() =~= self.scan(first).1);
        } else {
            assert((first + second).drop_last() =~= first + second.drop_last());
            assert((first + second).last() == second.last());
            self.lemma_scan_concat(first, second.drop_last());
            let middle = self.scan(first).0;
            let (before, messages) = middle.scan(second.drop_last());
            match before.step(second.last()).1 {
                Some(complete) => {
                    assert((self.scan(first).1 + messages).push(complete) =~= self.scan(first).1
                        + messages.push(complete));
                },
                None => {},
            }
        }
    }
}

impl View for JsonFramer {
    type V = FramerModel;

    closed spec fn view(&self) -> FramerModel {
        FramerModel {
            pending: self.pending@,
            depth: self.depth as nat,
            in_string: self.in_string,
            escaped: self.escaped,
        }
    }
}

impl JsonFramer {
    /// The reader's invariant: its state is one that a reader can be in.
    #[verifier::type_invariant]
    pub closed spec fn wf(&self) -> bool {
        self@.wf()
    }

    /// A reader between two messages.
    pub fn new() -> (framer: JsonFramer)
        ensures
            framer@ == FramerModel::idle(),
    {
        JsonFramer { pending: Vec::new(), depth: 0, in_string: false, escaped: false }
    }

    /// Takes in the bytes of one read, and hands out the messages that they
    /// complete, in order.
    pub fn push(&mut self, chunk: &[u8]) -> (messages: Vec<Vec<u8>>)
        ensures
            final(self)@ == old(self)@.scan(chunk@).0,
            messages.deep_view() == old(self)@.scan(chunk@).1,
    {
        proof {
            use_type_invariant(&*self);
        }
        let ghost start = self@;
        let mut taken = JsonFramer::new();
        core::mem::swap(self, &mut taken);
        let JsonFramer { pending, depth, in_string, escaped } = taken;
        let mut pending = pending;
        let mut depth = depth;
        let mut in_string = in_string;
        let mut escaped = escaped;
        let mut messages: Vec<Vec<u8>> = Vec::new();
        let mut i: usize = 0;
        assert(chunk@.subrange(0, 0) =~= Seq::<u8>::empty());
        assert(messages.deep_view() =~= Seq::<Seq<u8>>::empty());
        while i < chunk.len()
            invariant
                i <= chunk@.len(),
                start.wf(),
                ({
                    let now = FramerModel { pending: pending@, depth: depth as nat, in_string, escaped };
                    &&& now.wf()
                    &&& now == start.scan(chunk@.subrange(0, i as int)).0
                }),
                messages.deep_view() == start.scan(chunk@.subrange(0, i as int)).1,
            decreases chunk@.len() - i,
        {
            let byte = chunk[i];
            let ghost now = FramerModel { pending: pending@, depth: depth as nat, in_string, escaped };
            let ghost emitted = messages.deep_view();
            let ghost earlier = messages@;
            proof {
                assert(chunk@.subrange(0, i + 1).drop_last() =~= chunk@.subrange(0, i as int));
                assert(chunk@.subrange(0, i + 1).last() == byte);
                now.lemma_step_wf(byte);
            }
            if depth == 0 {
                if byte == 0x7b {
                    pending.push(byte);
                    depth = 1;
                    assert(pending@ =~= seq![byte]);
                }
            } else {
                pending.push(byte);
                if escaped {
                    escaped = false;
                } else if in_string {
                    if byte == 0x5c {
                        escaped = true;
                    } else if byte == 0x22 {
                        in_string = false;
                    }
                } else if byte == 0x22 {
                    in_string = true;
                } else if byte == 0x7b {
                    depth = depth + 1;
                } else if byte == 0x7d {
                    depth = depth - 1;
                }
                if depth == 0 {
                    let mut complete: Vec<u8> = Vec::new();
                    core::mem::swap(&mut pending, &mut complete);
                    messages.push(complete);
                    in_string = false;
                    escaped = false;
                    proof {
                        let message = now.step(byte).1->Some_0;
                        assert(messages.deep_view() =~= emitted.push(message)) by {
                            assert(messages.deep_view().len() == emitted.len() + 1);
                            assert forall|j: int| 0 <= j < messages@.len() implies messages.deep_view()[j]
                                == emitted.push(message)[j] by {
                                assert(messages.deep_view()[j] == messages@[j]@);
                                if j < emitted.len() {
                                    assert(emitted[j] == earlier[j]@);
                                }
                            }
                        }
                    }
                } else if pending.len() >= MAX_MESSAGE_SIZE {
                    pending = Vec::new();
                    depth = 0;
                    in_string = false;
                    escaped = false;
                }
            }
            i += 1;
        }
        assert(chunk@.subrange(0, chunk@.len() as int) =~= chunk@);
        *self = JsonFramer { pending, depth, in_string, escaped };
        messages
    }
}

} // verus!
