//! One peer: its lifecycle state, readiness mask, byte buffers, and the
//! read/write/close drivers the reactor pulses.

use vstd::prelude::*;
use vstd::utf8::*;

use crate::handler::Handler;
use crate::message::{string_from_utf8, Message};
use crate::protocol::CloseCode;
use crate::result::{Error, Kind};
use crate::util::Token;
use crate::Settings;

verus! {

/// Lifecycle of a connection.  `Connecting` is the initial state and
/// `FinishedClose` the terminal one.
#[derive(Debug, PartialEq, Eq, Structural, Clone, Copy)]
pub enum State {
    /// TCP connection accepted, not yet opened.
    Connecting,
    /// Ready to send and receive messages.
    Open,
    /// A close was sent from this side; awaiting the peer's answer.
    AwaitingClose,
    /// The peer asked to close; the confirming close is owed.
    RespondingClose,
    /// The closing handshake is complete.
    FinishedClose,
}

/// How far along the lifecycle a state is.  A connection only ever moves
/// forward in this order.
pub open spec fn state_rank(s: State) -> int {
    match s {
        State::Connecting => 0,
        State::Open => 1,
        State::AwaitingClose => 2,
        State::RespondingClose => 2,
        State::FinishedClose => 3,
    }
}

/// The state after one locally driven close, as the close table gives it:
/// `Open` starts the handshake, `RespondingClose` completes it, the two
/// already-closing states ignore the request, and `Connecting` never reaches
/// a close.
pub open spec fn close_next(s: State) -> State {
    match s {
        State::Connecting => State::Connecting,
        State::Open => State::AwaitingClose,
        State::AwaitingClose => State::AwaitingClose,
        State::RespondingClose => State::FinishedClose,
        State::FinishedClose => State::FinishedClose,
    }
}

/// A close never moves the lifecycle backward.
pub proof fn lemma_close_moves_forward(s: State)
    ensures
        state_rank(close_next(s)) >= state_rank(s),
{
}

/// A second close is a no-op: the first call transitions the state and every
/// later one leaves it where it is.
pub proof fn lemma_close_idempotent(s: State)
    ensures
        close_next(close_next(s)) == close_next(s),
{
}

impl State {
    /// Whether the connection is still in its initial, unopened state.
    pub fn is_connecting(&self) -> (r: bool)
        ensures
            r <==> *self is Connecting,
    {
        match *self {
            State::Connecting => true,
            _ => false,
        }
    }

    /// Whether the connection is open for messages.
    pub fn is_open(&self) -> (r: bool)
        ensures
            r <==> *self is Open,
    {
        match *self {
            State::Open => true,
            _ => false,
        }
    }

    /// Whether a close was already driven from this side.
    pub fn is_closing(&self) -> (r: bool)
        ensures
            r <==> (*self is AwaitingClose || *self is FinishedClose),
    {
        match *self {
            State::AwaitingClose => true,
            State::FinishedClose => true,
            _ => false,
        }
    }
}

/// Which side of the connection this endpoint is; set once when the
/// connection is placed in `Open`.  Only clients keep retry addresses.
#[derive(Debug, Clone)]
pub enum Endpoint {
    /// The connection was originated locally, toward the given URL.
    Client(String),
    /// The connection was accepted from a listener.
    Server,
}

/// The readiness mask a connection asks the poller to observe.
#[derive(Debug, PartialEq, Eq, Structural, Clone, Copy)]
pub struct Ready {
    /// Interest in reading from the socket.
    pub readable: bool,
    /// Interest in writing to the socket.
    pub writable: bool,
}

impl Ready {
    /// No interest at all: the mask of a connection about to be reaped.
    pub fn empty() -> (r: Ready)
        ensures
            r == (Ready { readable: false, writable: false }),
    {
        Ready { readable: false, writable: false }
    }

    /// Whether the mask holds no interest.
    pub fn is_empty(&self) -> (r: bool)
        ensures
            r <==> (!self.readable && !self.writable),
    {
        !self.readable && !self.writable
    }

    /// Whether the mask asks for readable events.
    pub fn is_readable(&self) -> (r: bool)
        ensures
            r == self.readable,
    {
        self.readable
    }

    /// Whether the mask asks for writable events.
    pub fn is_writable(&self) -> (r: bool)
        ensures
            r == self.writable,
    {
        self.writable
    }
}

/// A FIFO byte buffer: bytes are appended at the end and consumed from a
/// read cursor.  `cap` is the room the growth policy accounts with; the
/// vector underneath grows as it must.
#[derive(Debug)]
pub struct Buffer {
    /// The bytes written so far.
    pub data: Vec<u8>,
    /// The read cursor: everything before it has been consumed.
    pub pos: usize,
    /// The capacity the growth policy accounts with.
    pub cap: usize,
}

impl Buffer {
    /// The cursor never passes the end of the data.
    pub open spec fn wf(self) -> bool {
        self.pos <= self.data@.len()
    }

    /// The bytes written and not yet consumed.
    pub open spec fn unread(self) -> Seq<u8> {
        self.data@.subrange(self.pos as int, self.data@.len() as int)
    }

    /// A fresh, empty buffer accounting with the given capacity.
    pub fn new(cap: usize) -> (b: Buffer)
        ensures
            b.wf(),
            b.data@ =~= Seq::<u8>::empty(),
            b.unread() =~= Seq::<u8>::empty(),
            b.pos == 0,
            b.cap == cap,
    {
        Buffer { data: Vec::new(), pos: 0, cap }
    }

    /// How many unread bytes the buffer holds.
    pub fn unread_len(&self) -> (n: usize)
        requires
            self.wf(),
        ensures
            n == self.unread().len(),
    {
        self.data.len() - self.pos
    }

    /// Whether any unread bytes remain.
    pub fn has_unread(&self) -> (r: bool)
        requires
            self.wf(),
        ensures
            r <==> self.unread().len() > 0,
    {
        self.pos < self.data.len()
    }

    /// A copy of the unread bytes, for the caller to hand to a socket.
    pub fn unread_bytes(&self) -> (out: Vec<u8>)
        requires
            self.wf(),
        ensures
            out@ == self.unread(),
    {
        let s = vstd::slice::slice_subrange(self.data.as_slice(), self.pos, self.data.len());
        vstd::slice::slice_to_vec(s)
    }

    /// Append bytes at the end; the cursor and capacity stay.
    pub fn append(&mut self, bytes: &[u8])
        requires
            old(self).wf(),
        ensures
            final(self).wf(),
            final(self).data@ == old(self).data@ + bytes@,
            final(self).pos == old(self).pos,
            final(self).cap == old(self).cap,
            final(self).unread() =~= old(self).unread() + bytes@,
    {
        self.data.extend_from_slice(bytes);
    }

    /// Consume `n` unread bytes by moving the cursor.
    pub fn advance(&mut self, n: usize)
        requires
            old(self).wf(),
            n <= old(self).unread().len(),
        ensures
            final(self).wf(),
            final(self).data@ == old(self).data@,
            final(self).cap == old(self).cap,
            final(self).pos == old(self).pos + n,
            final(self).unread() =~= old(self).unread().skip(n as int),
    {
        let end = self.data.len();
        assert(self.pos + n <= end);
        self.pos = self.pos + n;
    }

    /// Take every unread byte out, leaving the buffer drained.
    pub fn drain(&mut self) -> (out: Vec<u8>)
        requires
            old(self).wf(),
        ensures
            final(self).wf(),
            out@ == old(self).unread(),
            final(self).unread() =~= Seq::<u8>::empty(),
            final(self).data@ == old(self).data@,
            final(self).cap == old(self).cap,
    {
        let out = self.unread_bytes();
        self.pos = self.data.len();
        out
    }

    /// Compaction: copy the unread suffix to the front of a fresh buffer at
    /// the same accounted capacity.  The unread bytes are preserved
    /// byte-for-byte.
    pub fn compact(&mut self)
        requires
            old(self).wf(),
        ensures
            final(self).wf(),
            final(self).unread() =~= old(self).unread(),
            final(self).data@ == old(self).unread(),
            final(self).pos == 0,
            final(self).cap == old(self).cap,
    {
        let rest = self.unread_bytes();
        self.data = rest;
        self.pos = 0;
    }

    /// Move the cursor back to the start, re-reading everything written.
    pub fn rewind(&mut self)
        ensures
            final(self).data@ == old(self).data@,
            final(self).cap == old(self).cap,
            final(self).pos == 0,
    {
        self.pos = 0;
    }

    /// Reserve `extra` more accounted bytes, stopping at the machine limit.
    pub fn grow(&mut self, extra: usize)
        ensures
            final(self).data@ == old(self).data@,
            final(self).pos == old(self).pos,
            final(self).cap == old(self).cap + extra || final(self).cap == usize::MAX,
    {
        self.cap = self.cap.saturating_add(extra);
    }

    /// Whether `more` further bytes would not fit in the accounted capacity.
    pub fn is_tight(&self, more: usize) -> (r: bool)
        ensures
            r <==> self.cap <= self.data@.len() + more,
    {
        (self.cap as u128) <= (self.data.len() as u128) + (more as u128)
    }
}

/// Whether the settings turn an error of this kind into a process panic.
/// The engine's verified drivers never panic, so they refuse such an error
/// up front and the embedder panics in its stead.
pub open spec fn panics_on(s: Settings, k: Kind) -> bool {
    match k {
        Kind::Internal => s.panic_on_internal,
        Kind::Capacity => s.panic_on_capacity,
        Kind::Protocol => s.panic_on_protocol,
        Kind::Encoding => s.panic_on_encoding,
        Kind::Io(_) => s.panic_on_io,
        Kind::Http => false,
        Kind::Queue => s.panic_on_queue,
        Kind::Timer => s.panic_on_timeout,
        Kind::Custom => false,
    }
}

/// Runtime test of `panics_on`.
pub fn settings_panic_on(s: &Settings, k: &Kind) -> (r: bool)
    ensures
        r == panics_on(*s, *k),
{
    match *k {
        Kind::Internal => s.panic_on_internal,
        Kind::Capacity => s.panic_on_capacity,
        Kind::Protocol => s.panic_on_protocol,
        Kind::Encoding => s.panic_on_encoding,
        Kind::Io(_) => s.panic_on_io,
        Kind::Http => false,
        Kind::Queue => s.panic_on_queue,
        Kind::Timer => s.panic_on_timeout,
        Kind::Custom => false,
    }
}

/// One peer of the engine.  The socket itself lives with the embedder,
/// which feeds received bytes in and carries unread output bytes out; every
/// decision in between is made here.
pub struct Connection<H: Handler> {
    /// The slab index of this connection, stable for its lifetime.
    pub token: Token,
    /// Lifecycle state.
    pub state: State,
    /// Which side of the connection this is.
    pub endpoint: Endpoint,
    /// The readiness mask currently requested from the poller.
    pub events: Ready,
    /// Bytes received and not yet delivered.
    pub in_buffer: Buffer,
    /// Bytes queued for the socket and not yet written.
    pub out_buffer: Buffer,
    /// The handshake-error response staged while still `Connecting`.
    pub handshake_res: Vec<u8>,
    /// The user callbacks, exclusively owned until the connection dies.
    pub handler: H,
    /// Remaining candidate peer addresses; meaningful for clients only.
    pub addresses: Vec<String>,
    /// The configuration captured at construction.
    pub settings: Settings,
    /// Generation tag distinguishing this occupant of a recycled slab slot.
    pub connection_id: u32,
}

impl<H: Handler> Connection<H> {
    /// Both buffers keep their cursors inside the data.
    pub open spec fn wf(self) -> bool {
        &&& self.in_buffer.wf()
        &&& self.out_buffer.wf()
    }

    /// Whether this side originated the connection.
    pub open spec fn spec_is_client(self) -> bool {
        self.endpoint is Client
    }

    /// Whether queuing `more` further output bytes must fail: the buffer
    /// may not grow, and even compacted it cannot hold them.
    pub open spec fn send_overflows(self, more: nat) -> bool {
        &&& !self.settings.out_buffer_grow
        &&& self.out_buffer.cap <= self.out_buffer.data@.len() + more
        &&& self.out_buffer.cap <= self.out_buffer.unread().len() + more
    }

    /// A fresh connection in `Connecting`, with empty buffers sized by the
    /// settings and no interest registered yet.
    pub fn new(tok: Token, handler: H, settings: Settings, connection_id: u32) -> (c:
        Connection<H>)
        ensures
            c.wf(),
            c.token == tok,
            c.state is Connecting,
            c.endpoint is Server,
            c.events == (Ready { readable: false, writable: false }),
            c.in_buffer.unread() =~= Seq::<u8>::empty(),
            c.out_buffer.unread() =~= Seq::<u8>::empty(),
            c.in_buffer.cap == settings.in_buffer_capacity,
            c.out_buffer.cap == settings.out_buffer_capacity,
            c.addresses@.len() == 0,
            c.settings == settings,
            c.connection_id == connection_id,
            c.handler == handler,
    {
        Connection {
            token: tok,
            state: State::Connecting,
            endpoint: Endpoint::Server,
            events: Ready::empty(),
            in_buffer: Buffer::new(settings.in_buffer_capacity),
            out_buffer: Buffer::new(settings.out_buffer_capacity),
            handshake_res: Vec::new(),
            handler,
            addresses: Vec::new(),
            settings,
            connection_id,
        }
    }

    /// Transition `Connecting` to `Open`.  Past `Connecting` the call fails
    /// with an internal error and changes nothing.
    pub fn open(&mut self) -> (r: Result<(), Error>)
        ensures
            old(self).state is Connecting ==> r is Ok && *final(self) == (Connection {
                state: State::Open,
                ..*old(self)
            }),
            !(old(self).state is Connecting) ==> (r matches Err(e) && e.kind == Kind::Internal)
                && *final(self) == *old(self),
            state_rank(final(self).state) >= state_rank(old(self).state),
    {
        if self.state.is_connecting() {
            self.state = State::Open;
            Ok(())
        } else {
            Err(Error::new(Kind::Internal, "Tried to open socket while not in connecting state!"))
        }
    }

    /// Finalize the server role: ask for readable interest.
    pub fn as_server(&mut self) -> (r: Result<(), Error>)
        ensures
            r is Ok,
            *final(self) == (Connection {
                events: Ready { readable: true, ..old(self).events },
                ..*old(self)
            }),
    {
        self.events.readable = true;
        Ok(())
    }

    /// Finalize the client role: store the URL and the remaining retry
    /// addresses and ask for readable interest.  Outside `Open` the call
    /// fails with an internal error and changes nothing.
    pub fn as_client(&mut self, url: String, addrs: Vec<String>) -> (r: Result<(), Error>)
        ensures
            old(self).state is Open ==> r is Ok && *final(self) == (Connection {
                endpoint: Endpoint::Client(url),
                addresses: addrs,
                events: Ready { readable: true, ..old(self).events },
                ..*old(self)
            }),
            !(old(self).state is Open) ==> (r matches Err(e) && e.kind == Kind::Internal)
                && *final(self) == *old(self),
    {
        match self.state {
            State::Open => {
                self.addresses = addrs;
                self.events.readable = true;
                self.endpoint = Endpoint::Client(url);
                Ok(())
            },
            _ => Err(
                Error::new(Kind::Internal, "Tried to set connection to client while not connecting."),
            ),
        }
    }

    /// The connection's token.
    pub fn token(&self) -> (t: Token)
        ensures
            t == self.token,
    {
        self.token
    }

    /// The connection's generation tag.
    pub fn connection_id(&self) -> (id: u32)
        ensures
            id == self.connection_id,
    {
        self.connection_id
    }

    /// The readiness mask currently requested.
    pub fn events(&self) -> (r: Ready)
        ensures
            r == self.events,
    {
        self.events
    }

    /// Whether this side originated the connection.
    pub fn is_client(&self) -> (r: bool)
        ensures
            r == self.spec_is_client(),
    {
        match self.endpoint {
            Endpoint::Client(_) => true,
            Endpoint::Server => false,
        }
    }

    /// Whether this side accepted the connection.
    pub fn is_server(&self) -> (r: bool)
        ensures
            r == !self.spec_is_client(),
    {
        match self.endpoint {
            Endpoint::Client(_) => false,
            Endpoint::Server => true,
        }
    }

    /// Retry after a refused connect: a client with addresses left rewinds
    /// its buffer cursors, re-arms readable-only interest, and yields the
    /// next address for the embedder to dial.  A client out of addresses
    /// fails with an internal error, as does every server.
    pub fn reset(&mut self) -> (r: Result<String, Error>)
        requires
            old(self).wf(),
            !(old(self).spec_is_client() && old(self).addresses@.len() == 0 && old(
                self,
            ).settings.panic_on_new_connection),
        ensures
            final(self).wf(),
            !old(self).spec_is_client() ==> (r matches Err(e) && e.kind == Kind::Internal
                && e.details@ == "Server connections cannot be reset."@) && *final(self) == *old(
                self,
            ),
            old(self).spec_is_client() && old(self).addresses@.len() == 0 ==> (r matches Err(e)
                && e.kind == Kind::Internal && e.details@ == "Exhausted possible addresses."@)
                && *final(self) == *old(self),
            old(self).spec_is_client() && old(self).addresses@.len() > 0 ==> (r matches Ok(addr)
                && addr == old(self).addresses@.last()) && final(self).addresses@ == old(
                self,
            ).addresses@.drop_last() && final(self).events == (Ready {
                readable: true,
                writable: false,
            }) && final(self).state == old(self).state && final(self).in_buffer.pos == 0
                && final(self).out_buffer.pos == 0 && final(self).in_buffer.data@ == old(
                self,
            ).in_buffer.data@ && final(self).out_buffer.data@ == old(self).out_buffer.data@
                && final(self).in_buffer.cap == old(self).in_buffer.cap && final(self)
                .out_buffer.cap == old(self).out_buffer.cap && final(self).token == old(
                self,
            ).token && final(self).connection_id == old(self).connection_id && final(self)
                .settings == old(self).settings && final(self).endpoint == old(self).endpoint
                && final(self).handler == old(self).handler && final(self).handshake_res == old(
                self,
            ).handshake_res,
    {
        if self.is_client() {
            if self.addresses.len() == 0 {
                return Err(Error::new(Kind::Internal, "Exhausted possible addresses."));
            }
            let popped = self.addresses.pop();
            match popped {
                Some(addr) => {
                    self.in_buffer.rewind();
                    self.out_buffer.rewind();
                    self.events.writable = false;
                    self.events.readable = true;
                    Ok(addr)
                },
                None => Err(Error::new(Kind::Internal, "Exhausted possible addresses.")),
            }
        } else {
            Err(Error::new(Kind::Internal, "Server connections cannot be reset."))
        }
    }

    /// Surrender the handler to the reactor on removal.
    pub fn consume(self) -> (h: H)
        ensures
            h == self.handler,
    {
        self.handler
    }

    /// Re-establish interest after any mutation: once past `Connecting` the
    /// connection always wants to read, and wants to write exactly when
    /// unread output is queued.
    fn check_events(&mut self)
        requires
            old(self).wf(),
        ensures
            final(self).wf(),
            old(self).state is Connecting ==> *final(self) == *old(self),
            !(old(self).state is Connecting) ==> *final(self) == (Connection {
                events: Ready {
                    readable: true,
                    writable: old(self).events.writable || old(self).out_buffer.unread().len() > 0,
                },
                ..*old(self)
            }),
    {
        if !self.state.is_connecting() {
            self.events.readable = true;
            if self.out_buffer.has_unread() {
                self.events.writable = true;
            }
        }
    }

    /// Drive the close state machine one step: `Open` starts the closing
    /// handshake, `RespondingClose` finishes it, and a connection already
    /// closing ignores the request.  No close frame leaves the wire yet: the
    /// framing layer that would emit it is still to come.  Closing a
    /// connection that was never opened is a caller bug, excluded up front.
    pub fn send_close(&mut self, code: CloseCode, reason: &str) -> (r: Result<(), Error>)
        requires
            old(self).wf(),
            !(old(self).state is Connecting),
        ensures
            final(self).wf(),
            r is Ok,
            *final(self) == (Connection {
                state: close_next(old(self).state),
                events: Ready {
                    readable: true,
                    writable: old(self).events.writable || old(self).out_buffer.unread().len() > 0,
                },
                ..*old(self)
            }),
            state_rank(final(self).state) >= state_rank(old(self).state),
    {
        match self.state {
            State::RespondingClose => {
                self.state = State::FinishedClose;
            },
            State::AwaitingClose | State::FinishedClose => {},
            State::Open => {
                self.state = State::AwaitingClose;
            },
            State::Connecting => {},
        }
        self.check_events();
        Ok(())
    }

    /// Ask the user code to wind down, then drive a best-effort close with
    /// the `Away` code.  A connection still `Connecting` has no close to
    /// drive and only its handler is told.
    pub fn shutdown(&mut self)
        requires
            old(self).wf(),
        ensures
            final(self).wf(),
            old(self).state is Connecting ==> final(self).state == old(self).state,
            !(old(self).state is Connecting) ==> final(self).state == close_next(old(self).state),
            state_rank(final(self).state) >= state_rank(old(self).state),
            final(self).token == old(self).token,
            final(self).connection_id == old(self).connection_id,
            final(self).settings == old(self).settings,
            final(self).endpoint == old(self).endpoint,
            final(self).addresses == old(self).addresses,
            final(self).in_buffer == old(self).in_buffer,
            final(self).out_buffer == old(self).out_buffer,
            final(self).handshake_res == old(self).handshake_res,
    {
        self.handler.on_shutdown();
        if !self.state.is_connecting() {
            let _ = self.send_close(CloseCode::Away, "Shutting down.");
        }
    }

    /// Hand a freshly scheduled timeout's handle to the user code.
    pub fn new_timeout(&mut self, event: Token, timeout: crate::util::Timeout) -> (r: Result<
        (),
        Error,
    >)
        ensures
            *final(self) == (Connection { handler: final(self).handler, ..*old(self) }),
    {
        self.handler.on_new_timeout(event, timeout)
    }

    /// Deliver a fired timeout to the user code.
    pub fn timeout_triggered(&mut self, event: Token) -> (r: Result<(), Error>)
        ensures
            *final(self) == (Connection { handler: final(self).handler, ..*old(self) }),
    {
        self.handler.on_timeout(event)
    }

    /// Make room in the output buffer for `more` bytes: when they would not
    /// fit, compact, and when they still would not fit either reserve
    /// another `out_buffer_capacity` bytes or fail with a capacity error.
    fn check_buffer_out(&mut self, more: usize) -> (r: Result<(), Error>)
        requires
            old(self).wf(),
        ensures
            final(self).wf(),
            r is Err <==> !old(self).settings.out_buffer_grow && old(self).out_buffer.cap <= old(
                self,
            ).out_buffer.data@.len() + more && old(self).out_buffer.cap <= old(
                self,
            ).out_buffer.unread().len() + more,
            r matches Err(e) ==> e.kind == Kind::Capacity && *final(self) == (Connection {
                out_buffer: final(self).out_buffer,
                ..*old(self)
            }),
            final(self).out_buffer.unread() == old(self).out_buffer.unread(),
            final(self).out_buffer.pos <= old(self).out_buffer.pos,
            final(self).state == old(self).state,
            final(self).events == old(self).events,
            final(self).in_buffer == old(self).in_buffer,
            final(self).handler == old(self).handler,
            final(self).token == old(self).token,
            final(self).connection_id == old(self).connection_id,
            final(self).settings == old(self).settings,
            final(self).endpoint == old(self).endpoint,
            final(self).addresses == old(self).addresses,
            final(self).handshake_res == old(self).handshake_res,
    {
        if self.out_buffer.is_tight(more) {
            self.out_buffer.compact();
            if self.out_buffer.is_tight(more) {
                if self.settings.out_buffer_grow {
                    let extra = self.settings.out_buffer_capacity;
                    self.out_buffer.grow(extra);
                } else {
                    return Err(Error::new(Kind::Capacity, "Maxed out output buffer for connection."));
                }
            }
        }
        Ok(())
    }

    /// Queue a message's payload for the wire and arm writable interest.  A
    /// connection already closing ignores the request and reports success;
    /// otherwise the bytes go out exactly when the buffer can take them, and
    /// afterwards writable interest is armed whenever unread output remains.
    pub fn send_message(&mut self, msg: Message) -> (r: Result<(), Error>)
        requires
            old(self).wf(),
        ensures
            final(self).wf(),
            final(self).state == old(self).state,
            old(self).state is AwaitingClose || old(self).state is FinishedClose ==> r is Ok
                && *final(self) == *old(self),
            !(old(self).state is AwaitingClose || old(self).state is FinishedClose) ==> {
                &&& r is Err <==> (!old(self).settings.out_buffer_grow && old(
                    self,
                ).out_buffer.cap <= old(self).out_buffer.data@.len() + msg.spec_len() && old(
                    self,
                ).out_buffer.cap <= old(self).out_buffer.unread().len() + msg.spec_len())
                &&& r matches Err(e) ==> e.kind == Kind::Capacity && final(self).events == old(
                    self,
                ).events && final(self).out_buffer.unread() == old(self).out_buffer.unread()
                &&& r is Ok ==> final(self).out_buffer.unread() =~= old(self).out_buffer.unread()
                    + msg.spec_data()
                &&& r is Ok && !(old(self).state is Connecting) ==> final(self).events == (Ready {
                    readable: true,
                    writable: old(self).events.writable || final(self).out_buffer.unread().len()
                        > 0,
                })
                &&& r is Ok && old(self).state is Connecting ==> final(self).events == old(
                    self,
                ).events
            },
            r is Ok && (old(self).state is Open || old(self).state is RespondingClose)
                && msg.spec_len() > 0 ==> (final(self).events.writable <==> final(self)
                .out_buffer.unread().len() > 0),
            final(self).handshake_res == old(self).handshake_res,
            final(self).in_buffer == old(self).in_buffer,
            final(self).handler == old(self).handler,
            final(self).token == old(self).token,
            final(self).connection_id == old(self).connection_id,
            final(self).settings == old(self).settings,
            final(self).endpoint == old(self).endpoint,
            final(self).addresses == old(self).addresses,
    {
        if self.state.is_closing() {
            return Ok(());
        }
        let data = msg.into_data();
        match self.check_buffer_out(data.len()) {
            Ok(()) => {},
            Err(e) => {
                return Err(e);
            },
        }
        self.out_buffer.append(data.as_slice());
        self.check_events();
        Ok(())
    }

    /// Absorb freshly received bytes into the input buffer; when the buffer
    /// has reached its accounted capacity, compact, and when it is still
    /// full either reserve another `in_buffer_capacity` bytes or fail with a
    /// capacity error.
    fn buffer_in(&mut self, bytes: &[u8]) -> (r: Result<(), Error>)
        requires
            old(self).wf(),
        ensures
            final(self).wf(),
            final(self).in_buffer.unread() =~= old(self).in_buffer.unread() + bytes@,
            r matches Err(e) ==> e.kind == Kind::Capacity,
            r is Err <==> (!old(self).settings.in_buffer_grow && old(self).in_buffer.cap <= old(
                self,
            ).in_buffer.data@.len() + bytes@.len() && old(self).in_buffer.cap <= old(
                self,
            ).in_buffer.unread().len() + bytes@.len()),
            final(self).state == old(self).state,
            final(self).events == old(self).events,
            final(self).out_buffer == old(self).out_buffer,
            final(self).handler == old(self).handler,
            final(self).handshake_res == old(self).handshake_res,
            final(self).token == old(self).token,
            final(self).connection_id == old(self).connection_id,
            final(self).settings == old(self).settings,
            final(self).endpoint == old(self).endpoint,
            final(self).addresses == old(self).addresses,
    {
        self.in_buffer.append(bytes);
        if self.in_buffer.is_tight(0) {
            self.in_buffer.compact();
            if self.in_buffer.is_tight(0) {
                if self.settings.in_buffer_grow {
                    let extra = self.settings.in_buffer_capacity;
                    self.in_buffer.grow(extra);
                } else {
                    return Err(Error::new(Kind::Capacity, "Maxed out input buffer for connection."));
                }
            }
        }
        Ok(())
    }

    /// Deliver everything unread in the input buffer as one text message.
    /// The present engine has no framing layer: every received byte block is
    /// interpreted as UTF-8 text, and bytes that are not valid UTF-8 fail
    /// with an encoding error before the handler sees anything.
    fn read_data(&mut self) -> (r: Result<(), Error>)
        requires
            old(self).wf(),
        ensures
            final(self).wf(),
            !valid_utf8(old(self).in_buffer.unread()) ==> (r matches Err(e) && e.kind
                == Kind::Encoding),
            final(self).in_buffer.unread().len() == 0,
            final(self).in_buffer.data@ == old(self).in_buffer.data@,
            final(self).in_buffer.cap == old(self).in_buffer.cap,
            final(self).state == old(self).state,
            final(self).events == old(self).events,
            final(self).out_buffer == old(self).out_buffer,
            final(self).handshake_res == old(self).handshake_res,
            final(self).token == old(self).token,
            final(self).connection_id == old(self).connection_id,
            final(self).settings == old(self).settings,
            final(self).endpoint == old(self).endpoint,
            final(self).addresses == old(self).addresses,
    {
        let buffer = self.in_buffer.drain();
        match string_from_utf8(buffer) {
            Some(string) => self.handler.on_message(Message::Text(string)),
            None => Err(Error::new(Kind::Encoding, "invalid utf-8 sequence")),
        }
    }

    /// Drive one read pulse with what the poller produced: `None` for a
    /// read that would block, `Some(bytes)` for a transfer (empty on a peer
    /// half-close).  Received bytes are buffered and delivered to the
    /// handler as one UTF-8 text message; a half-close drops readable
    /// interest, or disconnects when nothing is left to write.  The result
    /// says whether the pulse may continue with another read.
    pub fn read(&mut self, chunk: Option<&[u8]>) -> (r: Result<bool, Error>)
        requires
            old(self).wf(),
        ensures
            final(self).wf(),
            final(self).state == old(self).state,
            old(self).state is Connecting ==> (r matches Err(e) && e.kind == Kind::Internal)
                && *final(self) == *old(self),
            !(old(self).state is Connecting) && chunk is None ==> (r matches Ok(more) && !more)
                && *final(self) == *old(self),
            !(old(self).state is Connecting) ==> (chunk matches Some(b) ==> {
                &&& (!old(self).settings.in_buffer_grow && old(self).in_buffer.cap <= old(
                    self,
                ).in_buffer.data@.len() + b@.len() && old(self).in_buffer.cap <= old(
                    self,
                ).in_buffer.unread().len() + b@.len()) ==> (r matches Err(e) && e.kind
                    == Kind::Capacity)
                &&& r matches Ok(more) ==> (more <==> b@.len() > 0)
                &&& r is Ok ==> final(self).in_buffer.unread().len() == 0
                &&& (old(self).settings.in_buffer_grow || old(self).in_buffer.cap > old(
                    self,
                ).in_buffer.unread().len() + b@.len()) ==> final(self).in_buffer.unread().len()
                    == 0
                &&& r is Ok && b@.len() > 0 ==> final(self).events == old(self).events
                &&& r is Ok && b@.len() == 0 && old(self).events.writable ==> final(self).events
                    == (Ready { readable: false, writable: true })
                &&& r is Ok && b@.len() == 0 && !old(self).events.writable ==> final(self).events
                    == (Ready { readable: false, writable: false })
                &&& !valid_utf8(old(self).in_buffer.unread() + b@) && (old(
                    self,
                ).settings.in_buffer_grow || old(self).in_buffer.cap > old(
                    self,
                ).in_buffer.unread().len() + b@.len()) ==> (r matches Err(e) && e.kind
                    == Kind::Encoding)
            }),
            r is Ok && old(self).events.readable && !(chunk matches Some(b) && b@.len() == 0)
                ==> final(self).events.readable,
            final(self).out_buffer == old(self).out_buffer,
            final(self).handshake_res == old(self).handshake_res,
            final(self).token == old(self).token,
            final(self).connection_id == old(self).connection_id,
            final(self).settings == old(self).settings,
            final(self).endpoint == old(self).endpoint,
            final(self).addresses == old(self).addresses,
    {
        if self.state.is_connecting() {
            return Err(Error::new(Kind::Internal, "connect state not change"));
        }
        match chunk {
            None => Ok(false),
            Some(bytes) => {
                match self.buffer_in(bytes) {
                    Ok(()) => {},
                    Err(e) => {
                        return Err(e);
                    },
                }
                match self.read_data() {
                    Ok(()) => {},
                    Err(e) => {
                        return Err(e);
                    },
                }
                if bytes.len() == 0 {
                    if self.events.is_writable() {
                        self.events.readable = false;
                    } else {
                        self.disconnect();
                    }
                    Ok(false)
                } else {
                    Ok(true)
                }
            },
        }
    }

    /// Drive one write pulse after the poller moved `wrote` bytes of the
    /// unread output (`None` for a write that would block).  Writable
    /// interest is cleared first and re-armed exactly when unread output
    /// remains.  A zero-byte transfer on a server that has finished closing
    /// means the confirming close is flushed: all interest is dropped so the
    /// reactor reaps the connection.
    pub fn write(&mut self, wrote: Option<usize>) -> (r: Result<(), Error>)
        requires
            old(self).wf(),
            wrote matches Some(n) ==> n <= old(self).out_buffer.unread().len(),
        ensures
            final(self).wf(),
            final(self).state == old(self).state,
            old(self).state is Connecting ==> (r matches Err(e) && e.kind == Kind::Internal)
                && *final(self) == *old(self),
            !(old(self).state is Connecting) ==> r is Ok,
            !(old(self).state is Connecting) && wrote is None ==> final(self).out_buffer == old(
                self,
            ).out_buffer && final(self).events == (Ready {
                readable: true,
                writable: old(self).out_buffer.unread().len() > 0,
            }),
            !(old(self).state is Connecting) ==> (wrote matches Some(n) ==> {
                &&& final(self).out_buffer.unread() =~= old(self).out_buffer.unread().skip(
                    n as int,
                )
                &&& (n == 0 && old(self).state is FinishedClose && !old(self).spec_is_client())
                    ==> final(self).events == (Ready { readable: false, writable: false })
                &&& !(n == 0 && old(self).state is FinishedClose && !old(self).spec_is_client())
                    ==> final(self).events == (Ready {
                    readable: true,
                    writable: final(self).out_buffer.unread().len() > 0,
                })
            }),
            final(self).in_buffer == old(self).in_buffer,
            final(self).handshake_res == old(self).handshake_res,
            final(self).handler == old(self).handler,
            final(self).token == old(self).token,
            final(self).connection_id == old(self).connection_id,
            final(self).settings == old(self).settings,
            final(self).endpoint == old(self).endpoint,
            final(self).addresses == old(self).addresses,
    {
        if self.state.is_connecting() {
            return Err(Error::new(Kind::Internal, "connect state not change"));
        }
        self.events.writable = false;
        match wrote {
            Some(n) => {
                self.out_buffer.advance(n);
                if n == 0 {
                    match self.state {
                        State::FinishedClose => {
                            if self.is_server() {
                                self.events = Ready::empty();
                                return Ok(());
                            }
                        },
                        _ => {},
                    }
                }
            },
            None => {},
        }
        self.check_events();
        Ok(())
    }

    /// Apply the error policy.  While still `Connecting`, an HTTP-style
    /// response is staged in the handshake buffer and a server switches to
    /// writable-only interest while a client clears all interest.  Open
    /// connections close with the code matching the kind, disconnect on
    /// HTTP and I/O failures, and merely report the rest.  A kind the
    /// settings turn into a panic is refused here: the embedder panics in
    /// the engine's stead, before the handler is notified.
    pub fn error(&mut self, err: Error)
        requires
            old(self).wf(),
            !panics_on(old(self).settings, err.kind),
        ensures
            final(self).wf(),
            final(self).token == old(self).token,
            final(self).connection_id == old(self).connection_id,
            final(self).settings == old(self).settings,
            final(self).addresses == old(self).addresses,
            final(self).endpoint == old(self).endpoint,
            final(self).in_buffer == old(self).in_buffer,
            state_rank(final(self).state) >= state_rank(old(self).state),
            old(self).state is Connecting ==> {
                &&& final(self).state == old(self).state
                &&& !old(self).spec_is_client() ==> final(self).events == (Ready {
                    readable: false,
                    writable: true,
                })
                &&& old(self).spec_is_client() ==> final(self).events == (Ready {
                    readable: false,
                    writable: false,
                })
                &&& final(self).out_buffer == old(self).out_buffer
            },
            !(old(self).state is Connecting) ==> {
                &&& (err.kind == Kind::Internal || err.kind == Kind::Capacity || err.kind
                    == Kind::Protocol || err.kind == Kind::Encoding) ==> final(self).state
                    == close_next(old(self).state) && final(self).events == (Ready {
                    readable: true,
                    writable: old(self).events.writable || old(self).out_buffer.unread().len()
                        > 0,
                }) && final(self).out_buffer == old(self).out_buffer
                &&& (err.kind == Kind::Http || err.kind matches Kind::Io(_)) ==> final(self).state
                    == old(self).state && final(self).events == (Ready {
                    readable: false,
                    writable: false,
                }) && final(self).out_buffer == old(self).out_buffer
                &&& (err.kind == Kind::Custom || err.kind == Kind::Timer || err.kind
                    == Kind::Queue) ==> *final(self) == (Connection {
                    handler: final(self).handler,
                    ..*old(self)
                })
            },
    {
        if self.state.is_connecting() {
            let k = err.kind;
            let msg = err.message();
            self.handler.on_error(err);
            match self.endpoint {
                Endpoint::Server => {
                    let mut res: String = if matches!(k, Kind::Protocol) {
                        "Bad Request\r\n\r\n".to_owned()
                    } else {
                        "Internal Server Error\r\n\r\n".to_owned()
                    };
                    res.append(msg.as_str());
                    self.handshake_res = res.as_str().as_bytes_vec();
                    self.events.readable = false;
                    self.events.writable = true;
                },
                Endpoint::Client(_) => {
                    self.events = Ready::empty();
                },
            }
        } else {
            match err.kind {
                Kind::Internal => {
                    let reason = err.message();
                    self.handler.on_error(err);
                    let _ = self.send_close(CloseCode::Error, reason.as_str());
                },
                Kind::Capacity => {
                    let reason = err.message();
                    self.handler.on_error(err);
                    let _ = self.send_close(CloseCode::Size, reason.as_str());
                },
                Kind::Protocol => {
                    let reason = err.message();
                    self.handler.on_error(err);
                    let _ = self.send_close(CloseCode::Protocol, reason.as_str());
                },
                Kind::Encoding => {
                    let reason = err.message();
                    self.handler.on_error(err);
                    let _ = self.send_close(CloseCode::Invalid, reason.as_str());
                },
                Kind::Http => {
                    self.handler.on_error(err);
                    self.disconnect();
                },
                Kind::Custom => {
                    self.handler.on_error(err);
                },
                Kind::Timer => {
                    self.handler.on_error(err);
                },
                Kind::Queue => {
                    self.handler.on_error(err);
                },
                Kind::Io(_) => {
                    self.handler.on_error(err);
                    self.disconnect();
                },
            }
        }
    }

    /// Tear readiness down.  Outside the handshake and the closing tail the
    /// user code sees an abnormal close first.
    pub fn disconnect(&mut self)
        requires
            old(self).wf(),
        ensures
            final(self).wf(),
            *final(self) == (Connection {
                events: Ready { readable: false, writable: false },
                handler: final(self).handler,
                ..*old(self)
            }),
    {
        match self.state {
            State::RespondingClose | State::FinishedClose | State::Connecting => {},
            _ => {
                self.handler.on_close(CloseCode::Abnormal, "");
            },
        }
        self.events = Ready::empty();
    }
}

} // verus!
