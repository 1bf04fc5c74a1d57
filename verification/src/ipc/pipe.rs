//! The instances of a named pipe that a server listens on.

use vstd::prelude::*;

verus! {

/// The options that an instance of a named pipe is created with.
#[derive(Debug, Clone, Copy, PartialEq, Eq)]
pub struct PipeOptions {
    /// Whether the instance must be the first of its name. Only the very
    /// first instance of a listener asks for this.
    pub first_pipe_instance: bool,
}

/// What a listener on a named pipe does next.
#[derive(Debug, Clone, Copy, PartialEq, Eq)]
pub enum PipeStep {
    /// Create an instance with these options; it listens from then on.
    Create(PipeOptions),
    /// Wait for a client on the instance that listens.
    AwaitClient,
    /// Hand the connected instance out.
    HandOut,
}

/// A listener on a named pipe. Before it waits for a client on one
/// instance it has created the next, so that an instance always listens.
#[derive(Debug, Clone, Copy, PartialEq, Eq)]
pub struct NamedPipeServerStream {
    created: u64,
    handed_out: u64,
    awaited: bool,
}

impl NamedPipeServerStream {
    /// How many instances were created.
    pub closed spec fn created(&self) -> nat {
        self.created as nat
    }

    /// How many instances were handed out with a client.
    pub closed spec fn handed_out(&self) -> nat {
        self.handed_out as nat
    }

    /// Whether a client was awaited on the oldest instance that was not
    /// handed out.
    pub closed spec fn awaited(&self) -> bool {
        self.awaited
    }

    /// The invariant: no instance is handed out that was not created, and
    /// one is awaited on only while there is one more to listen.
    #[verifier::type_invariant]
    pub closed spec fn wf(&self) -> bool {
        &&& self.handed_out <= self.created
        &&& self.awaited ==> self.handed_out + 2 <= self.created
    }

    /// The instances that listen and are not handed out.
    pub open spec fn listening(&self) -> int {
        self.created() - self.handed_out()
    }

    /// A listener that has created no instance yet.
    pub fn new() -> (stream: NamedPipeServerStream)
        ensures
            stream.created() == 0,
            stream.handed_out() == 0,
            !stream.awaited(),
    {
        NamedPipeServerStream { created: 0, handed_out: 0, awaited: false }
    }

    /// What the listener does next. It creates instances until two exist
    /// that were not handed out, the first of all with the first-instance
    /// flag; then it waits for a client on the older one; then it hands
    /// that one out. While it waits, and after it has handed one out,
    /// another instance still listens.
    pub fn poll_next(&mut self) -> (step: PipeStep)
        requires
            old(self).created() < u64::MAX,
        ensures
            match step {
                PipeStep::Create(options) => {
                    &&& old(self).listening() < 2
                    &&& options.first_pipe_instance == (old(self).created() == 0)
                    &&& final(self).created() == old(self).created() + 1
                    &&& final(self).handed_out() == old(self).handed_out()
                    &&& !final(self).awaited()
                },
                PipeStep::AwaitClient => {
                    &&& old(self).listening() >= 2
                    &&& !old(self).awaited()
                    &&& final(self).awaited()
                    &&& final(self).created() == old(self).created()
                    &&& final(self).handed_out() == old(self).handed_out()
                },
                PipeStep::HandOut => {
                    &&& old(self).awaited()
                    &&& !final(self).awaited()
                    &&& final(self).created() == old(self).created()
                    &&& final(self).handed_out() == old(self).handed_out() + 1
                    &&& final(self).listening() >= 1
                },
            },
    {
        proof {
            use_type_invariant(&*self);
        }
        if self.awaited {
            *self = NamedPipeServerStream {
                created: self.created,
                handed_out: self.handed_out + 1,
                awaited: false,
            };
            PipeStep::HandOut
        } else if self.created - self.handed_out < 2 {
            let first_pipe_instance = self.created == 0;
            *self = NamedPipeServerStream {
                created: self.created + 1,
                handed_out: self.handed_out,
                awaited: false,
            };
            PipeStep::Create(PipeOptions { first_pipe_instance })
        } else {
            *self = NamedPipeServerStream {
                created: self.created,
                handed_out: self.handed_out,
                awaited: true,
            };
            PipeStep::AwaitClient
        }
    }
}

} // verus!
