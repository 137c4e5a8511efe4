//! The accept loop's decisions: which accept call to make, what becomes of
//! each accepted descriptor, and when the loop ends. The caller runs the
//! blocking calls off the reactor and serves each connection on a task of
//! its own.
use vstd::prelude::*;

use crate::error::{at_stage, reports, BridgeError, Stage};
use crate::protocol::NativeError;
use crate::stack::Listener;

verus! {

/// Where an accept loop stands.
#[derive(PartialEq, Eq, Structural, Clone, Copy, Debug)]
pub enum LoopState {
    /// Not started yet.
    Idle,
    /// One accept call is in flight: its listener was handed out and its
    /// outcome not yet recorded.
    Accepting,
    /// An accepted connection is being wrapped and handed to a serving task;
    /// no accept call is in flight.
    Dispatching,
    /// Ended: no more accept calls.
    Closed,
}

/// An accepted socket descriptor, owned by whoever holds this value. It
/// cannot be copied: the one way to reach the descriptor consumes it, so a
/// descriptor is wrapped as a stream at most once.
#[derive(Debug)]
pub struct Connection {
    fd: i32,
}

impl Connection {
    pub closed spec fn descriptor(&self) -> i32 {
        self.fd
    }

    /// Gives up the descriptor, to be made non-blocking and wrapped as a
    /// stream, once.
    pub fn into_raw(self) -> (r: i32)
        ensures
            r == self.descriptor(),
    {
        self.fd
    }
}

/// The accept loop over one listener.
pub struct AcceptLoop {
    listener: i32,
    state: LoopState,
    accepted: Ghost<Seq<i32>>,
    calls: Ghost<nat>,
}

impl AcceptLoop {
    pub closed spec fn listener_of(&self) -> i32 {
        self.listener
    }

    pub closed spec fn state_of(&self) -> LoopState {
        self.state
    }

    /// How many accept calls were handed out and their outcome not yet recorded.
    pub closed spec fn in_flight(&self) -> nat {
        self.calls@
    }

    /// An accept call is in flight exactly while the loop is accepting.
    pub closed spec fn wf(&self) -> bool {
        self.calls@ == (if self.state == LoopState::Accepting { 1nat } else { 0nat })
    }

    /// The descriptors handed out so far, in order; each as one `Connection`.
    pub closed spec fn accepted(&self) -> Seq<i32> {
        self.accepted@
    }

    /// A loop over the given listener, not started.
    pub fn new(listener: &Listener) -> (r: AcceptLoop)
        ensures
            r.listener_of() == listener.id,
            r.state_of() == LoopState::Idle,
            r.accepted() == Seq::<i32>::empty(),
            r.wf(),
            r.in_flight() == 0,
    {
        AcceptLoop {
            listener: listener.id,
            state: LoopState::Idle,
            accepted: Ghost(Seq::empty()),
            calls: Ghost(0),
        }
    }

    pub fn state(&self) -> (r: LoopState)
        ensures
            r == self.state_of(),
    {
        self.state
    }

    /// Starts the loop: returns the listener to make the first accept call
    /// on, which is then in flight.
    pub fn start(&mut self) -> (r: i32)
        requires
            old(self).wf(),
            old(self).state_of() == LoopState::Idle,
        ensures
            final(self).wf(),
            old(self).in_flight() == 0 && final(self).in_flight() == 1,
            r == old(self).listener_of(),
            final(self).listener_of() == old(self).listener_of(),
            final(self).state_of() == LoopState::Accepting,
            final(self).accepted() == old(self).accepted(),
    {
        self.state = LoopState::Accepting;
        self.calls = Ghost(1);
        self.listener
    }

    /// The accepted connection was handed to its serving task: returns the
    /// listener to make the next accept call on, which is then in flight. The
    /// loop does not wait for the connection to be served.
    pub fn dispatched(&mut self) -> (r: i32)
        requires
            old(self).wf(),
            old(self).state_of() == LoopState::Dispatching,
        ensures
            final(self).wf(),
            old(self).in_flight() == 0 && final(self).in_flight() == 1,
            r == old(self).listener_of(),
            final(self).listener_of() == old(self).listener_of(),
            final(self).state_of() == LoopState::Accepting,
            final(self).accepted() == old(self).accepted(),
    {
        self.state = LoopState::Accepting;
        self.calls = Ghost(1);
        self.listener
    }

    /// Records the outcome of the accept call in flight. A descriptor becomes
    /// one `Connection` to dispatch, after which the loop accepts again,
    /// whatever becomes of that connection. A failure ends the loop and is its
    /// result.
    pub fn on_accept(&mut self, outcome: Result<i32, NativeError>) -> (r: Result<Connection, BridgeError>)
        requires
            old(self).wf(),
            old(self).state_of() == LoopState::Accepting,
        ensures
            final(self).wf(),
            old(self).in_flight() == 1 && final(self).in_flight() == 0,
            final(self).listener_of() == old(self).listener_of(),
            match outcome {
                Ok(fd) => r is Ok && r->Ok_0.descriptor() == fd
                    && final(self).state_of() == LoopState::Dispatching
                    && final(self).accepted() == old(self).accepted().push(fd),
                Err(e) => r is Err && reports(r->Err_0, Stage::Accept, e)
                    && final(self).state_of() == LoopState::Closed
                    && final(self).accepted() == old(self).accepted(),
            },
    {
        match outcome {
            Ok(fd) => {
                self.calls = Ghost(0);
                self.accepted = Ghost(self.accepted@.push(fd));
                self.state = LoopState::Dispatching;
                Ok(Connection { fd })
            },
            Err(e) => {
                self.calls = Ghost(0);
                self.state = LoopState::Closed;
                Err(at_stage(Stage::Accept, e))
            },
        }
    }

    /// The worker pool could not run the accept call in flight: the loop ends.
    pub fn on_offload_failure(&mut self) -> (r: BridgeError)
        requires
            old(self).wf(),
            old(self).state_of() == LoopState::Accepting,
        ensures
            final(self).wf(),
            old(self).in_flight() == 1 && final(self).in_flight() == 0,
            r == BridgeError::OffloadFailure,
            final(self).state_of() == LoopState::Closed,
            final(self).listener_of() == old(self).listener_of(),
            final(self).accepted() == old(self).accepted(),
    {
        self.calls = Ghost(0);
        self.state = LoopState::Closed;
        BridgeError::OffloadFailure
    }
}

/// At most one accept call is in flight on a loop's listener at any time.
pub proof fn lemma_one_accept_in_flight(l: AcceptLoop)
    requires
        l.wf(),
    ensures
        l.in_flight() <= 1,
{
}

} // verus!
