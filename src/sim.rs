//! An in-memory native stack with the same call surface and conventions as
//! the real one: each call returns zero or the failure sentinel, hands its
//! result out through a `&mut` slot, and leaves a message to fetch.
use vstd::prelude::*;
use vstd::string::StrSliceExecFns;

use crate::protocol::{
    ascii_text, errmsg_fill, explain, explains, is_ascii_bytes, is_failure, terminated,
    NativeError, ERRMSG_CAPACITY, SENTINEL,
};

verus! {

/// The first descriptor that a simulated accept hands out.
pub const FIRST_DESCRIPTOR: i32 = 3;

/// Whether an accept call on listener `l` succeeds on a stack in state `s`.
pub open spec fn accept_succeeds(s: SimStack, l: i32) -> bool {
    s.injected_failure() is None && !s.is_closed() && 1 <= l <= s.listener_count()
        && s.next_descriptor() < i32::MAX
}

/// A simulated native stack.
pub struct SimStack {
    up: bool,
    closed: bool,
    listeners: i32,
    next_fd: i32,
    message: Vec<u8>,
    injected: Option<Vec<u8>>,
}

impl SimStack {
    pub closed spec fn is_up(&self) -> bool {
        self.up
    }

    pub closed spec fn is_closed(&self) -> bool {
        self.closed
    }

    /// How many listeners were handed out; they are numbered from one.
    pub closed spec fn listener_count(&self) -> int {
        self.listeners as int
    }

    /// The descriptor that the next successful accept hands out.
    pub closed spec fn next_descriptor(&self) -> int {
        self.next_fd as int
    }

    /// The message of the last failure.
    pub closed spec fn last_message(&self) -> Seq<u8> {
        self.message@
    }

    /// The failure that the next call will report, if one was injected.
    pub closed spec fn injected_failure(&self) -> Option<Seq<u8>> {
        match self.injected {
            Some(m) => Some(m@),
            None => None,
        }
    }

    pub closed spec fn wf(&self) -> bool {
        0 <= self.listeners && FIRST_DESCRIPTOR <= self.next_fd
    }

    pub fn new() -> (r: SimStack)
        ensures
            r.wf(),
            !r.is_up(),
            !r.is_closed(),
            r.listener_count() == 0,
            r.next_descriptor() == FIRST_DESCRIPTOR,
            r.injected_failure() is None,
    {
        SimStack {
            up: false,
            closed: false,
            listeners: 0,
            next_fd: FIRST_DESCRIPTOR,
            message: Vec::new(),
            injected: None,
        }
    }

    /// Makes the next call fail with the given message.
    pub fn inject_failure(&mut self, message: Vec<u8>)
        requires
            old(self).wf(),
        ensures
            final(self).wf(),
            final(self).injected_failure() == Some(message@),
            final(self).is_up() == old(self).is_up(),
            final(self).is_closed() == old(self).is_closed(),
            final(self).listener_count() == old(self).listener_count(),
            final(self).next_descriptor() == old(self).next_descriptor(),
    {
        self.injected = Some(message);
    }

    fn fail(&mut self, message: Vec<u8>) -> (r: i32)
        requires
            old(self).wf(),
        ensures
            r == SENTINEL,
            final(self).wf(),
            final(self).last_message() == message@,
            final(self).injected_failure() is None,
            final(self).is_up() == old(self).is_up(),
            final(self).is_closed() == old(self).is_closed(),
            final(self).listener_count() == old(self).listener_count(),
            final(self).next_descriptor() == old(self).next_descriptor(),
    {
        self.message = message;
        self.injected = None;
        SENTINEL
    }

    /// Fails with the injected message, if there is one.
    fn take_injected(&mut self) -> (r: Option<i32>)
        requires
            old(self).wf(),
        ensures
            final(self).wf(),
            final(self).is_up() == old(self).is_up(),
            final(self).is_closed() == old(self).is_closed(),
            final(self).listener_count() == old(self).listener_count(),
            final(self).next_descriptor() == old(self).next_descriptor(),
            final(self).injected_failure() is None,
            match old(self).injected_failure() {
                Some(m) => r == Some(SENTINEL) && final(self).last_message() == m,
                None => r is None && final(self).last_message() == old(self).last_message(),
            },
    {
        match self.injected.take() {
            Some(m) => Some(self.fail(m)),
            None => None,
        }
    }

    /// Brings the stack up; fails once it is closed.
    pub fn up(&mut self) -> (r: i32)
        requires
            old(self).wf(),
        ensures
            final(self).wf(),
            final(self).is_closed() == old(self).is_closed(),
            final(self).listener_count() == old(self).listener_count(),
            final(self).next_descriptor() == old(self).next_descriptor(),
            final(self).injected_failure() is None,
            (r == 0) == (old(self).injected_failure() is None && !old(self).is_closed()),
            r != 0 ==> r == SENTINEL && final(self).is_up() == old(self).is_up(),
            r == 0 ==> final(self).is_up(),
            old(self).injected_failure() is Some ==> final(self).last_message() == old(
                self,
            ).injected_failure()->0,
    {
        if let Some(code) = self.take_injected() {
            return code;
        }
        if self.closed {
            return self.fail("stack is closed".as_bytes_vec());
        }
        self.up = true;
        0
    }

    /// Opens a listener on an up stack; its number goes to `listener_out`.
    /// The transport and address are taken as they are.
    pub fn listen(&mut self, network: &str, addr: &str, listener_out: &mut i32) -> (r: i32)
        requires
            old(self).wf(),
        ensures
            final(self).wf(),
            final(self).is_up() == old(self).is_up(),
            final(self).is_closed() == old(self).is_closed(),
            final(self).next_descriptor() == old(self).next_descriptor(),
            final(self).injected_failure() is None,
            (r == 0) == (old(self).injected_failure() is None && !old(self).is_closed()
                && old(self).is_up() && old(self).listener_count() < i32::MAX),
            r != 0 ==> r == SENTINEL && final(self).listener_count() == old(self).listener_count(),
            r == 0 ==> final(self).listener_count() == old(self).listener_count() + 1
                && *final(listener_out) == final(self).listener_count(),
            old(self).injected_failure() is Some ==> final(self).last_message() == old(
                self,
            ).injected_failure()->0,
    {
        if let Some(code) = self.take_injected() {
            return code;
        }
        if self.closed {
            return self.fail("stack is closed".as_bytes_vec());
        }
        if !self.up {
            return self.fail("stack is not up".as_bytes_vec());
        }
        if self.listeners == i32::MAX {
            return self.fail("too many listeners".as_bytes_vec());
        }
        self.listeners = self.listeners + 1;
        *listener_out = self.listeners;
        0
    }

    /// Accepts a connection on a listener of this stack; its descriptor goes
    /// to `conn_out`. Each accepted descriptor is new. Fails once the stack
    /// is closed.
    pub fn accept(&mut self, listener: i32, conn_out: &mut i32) -> (r: i32)
        requires
            old(self).wf(),
        ensures
            final(self).wf(),
            final(self).is_up() == old(self).is_up(),
            final(self).is_closed() == old(self).is_closed(),
            final(self).listener_count() == old(self).listener_count(),
            final(self).injected_failure() is None,
            (r == 0) == accept_succeeds(*old(self), listener),
            r != 0 ==> r == SENTINEL && final(self).next_descriptor() == old(self).next_descriptor(),
            r == 0 ==> *final(conn_out) == old(self).next_descriptor()
                && final(self).next_descriptor() == old(self).next_descriptor() + 1,
            old(self).injected_failure() is Some ==> final(self).last_message() == old(
                self,
            ).injected_failure()->0,
    {
        if let Some(code) = self.take_injected() {
            return code;
        }
        if self.closed {
            return self.fail("stack is closed".as_bytes_vec());
        }
        if listener < 1 || listener > self.listeners {
            return self.fail("no such listener".as_bytes_vec());
        }
        if self.next_fd == i32::MAX {
            return self.fail("out of descriptors".as_bytes_vec());
        }
        *conn_out = self.next_fd;
        self.next_fd = self.next_fd + 1;
        0
    }

    /// Fetches the last failure's message into a buffer of `cap` bytes, as
    /// much as fits before a zero byte; fails where the buffer has no room
    /// for the terminator.
    pub fn errmsg(&self, cap: usize) -> (r: (i32, Vec<u8>))
        ensures
            (r.0 == 0) == (cap > 0),
            r.0 == 0 ==> r.1@ == errmsg_fill(self.last_message(), cap as nat),
    {
        if cap == 0 {
            return (1, Vec::new());
        }
        let m = &self.message;
        let n: usize = if m.len() < cap { m.len() } else { cap - 1 };
        let mut buf: Vec<u8> = Vec::new();
        let mut i: usize = 0;
        while i < cap
            invariant
                n <= m@.len(),
                n < cap,
                0 <= i <= cap,
                buf@.len() == i,
                forall|j: int| 0 <= j < i ==> buf@[j] == (if j < n { m@[j] } else { 0u8 }),
            decreases cap - i,
        {
            if i < n {
                buf.push(m[i]);
            } else {
                buf.push(0);
            }
            i = i + 1;
        }
        assert(buf@ =~= errmsg_fill(m@, cap as nat));
        (0, buf)
    }

    /// Releases the stack: every later call fails.
    pub fn close(&mut self)
        requires
            old(self).wf(),
        ensures
            final(self).wf(),
            final(self).is_closed(),
            final(self).is_up() == old(self).is_up(),
            final(self).listener_count() == old(self).listener_count(),
            final(self).next_descriptor() == old(self).next_descriptor(),
            final(self).injected_failure() == old(self).injected_failure(),
            final(self).last_message() == old(self).last_message(),
    {
        self.closed = true;
    }

    /// Resolves a call's return value by the stack's error convention: a
    /// failure's message is fetched into a buffer of the usual size.
    pub fn resolve(&self, code: i32) -> (r: Result<(), NativeError>)
        ensures
            code != SENTINEL ==> r is Ok,
            code == SENTINEL ==> r is Err && r->Err_0 is Failed && explains(
                r->Err_0,
                0,
                errmsg_fill(self.last_message(), ERRMSG_CAPACITY as nat),
            ),
            code == SENTINEL && is_ascii_bytes(terminated(errmsg_fill(self.last_message(), ERRMSG_CAPACITY as nat)))
                ==> r->Err_0 is Failed && r->Err_0->Failed_0@ == ascii_text(
                terminated(errmsg_fill(self.last_message(), ERRMSG_CAPACITY as nat)),
            ),
    {
        if !is_failure(code) {
            return Ok(());
        }
        let (status, buf) = self.errmsg(ERRMSG_CAPACITY);
        Err(explain(status, buf.as_slice()))
    }
}

/// A listener that a successful listen call handed out serves accept calls
/// from then on, with no further listen: while the stack stays open, no
/// failure is pending and descriptors remain, an accept on it succeeds, also
/// after other listeners were opened.
pub proof fn lemma_listener_accepts(after_listen: SimStack, later: SimStack, l: i32)
    requires
        l == after_listen.listener_count(),
        1 <= l,
        later.listener_count() >= after_listen.listener_count(),
        !later.is_closed(),
        later.injected_failure() is None,
        later.next_descriptor() < i32::MAX,
    ensures
        accept_succeeds(later, l),
{
}

} // verus!
