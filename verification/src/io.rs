//! The reactor: the slab of connections, the command queue's receiving end,
//! the timeout schedule, and the dispatch rules of the event loop.  The
//! poller and the sockets live with the embedder, which drives this state
//! through plain values.

use vstd::prelude::*;

use crate::communication::{command_channel, command_sender_clone, command_try_recv, Command,
    Sender, Signal};
use crate::connection::{close_next, panics_on, settings_panic_on, state_rank, Connection,
    Ready};
use vstd::utf8::valid_utf8;
use crate::factory::Factory;
use crate::message::Message;
use crate::protocol::CloseCode;
use crate::result::{Error, Kind};
use crate::timer::{Timer, TimerEntry};
use crate::util::Token;
use crate::Settings;

verus! {

/// The index of the command-queue source's token.
pub const QUEUE: usize = usize::MAX - 3;

/// The index of the timer source's token.
pub const TIMER: usize = usize::MAX - 4;

/// The index of the listener's token, and of the broadcast target.
pub const ALL: usize = usize::MAX - 5;

/// The index of an unused system slot; no event may ever carry it.
pub const SYSTEM: usize = usize::MAX - 6;

/// A fired or scheduled timeout: the connection it belongs to and the event
/// token handed to the handler.
#[derive(Debug, Clone, Copy)]
pub struct Timeout {
    /// The owning connection, or `ALL` for a broadcast timeout.
    pub connection: Token,
    /// The event token the handler receives.
    pub event: Token,
}

/// How many timeouts may be scheduled at once.
pub const TIMER_CAPACITY: usize = 65536;

/// The raw OS error a refused TCP connect reports.
pub const CONNECTION_REFUSED: i32 = 111;

/// Whether the reactor is running its event loop.
#[derive(Debug, PartialEq, Eq, Structural, Clone, Copy)]
pub enum State {
    /// The event loop is running.
    Active,
    /// The event loop has not started, or has been asked to stop.
    Inactive,
}

impl State {
    /// Whether the event loop should keep running.
    pub fn is_active(&self) -> (r: bool)
        ensures
            r <==> *self is Active,
    {
        match *self {
            State::Active => true,
            State::Inactive => false,
        }
    }
}

/// What the embedder owes the reactor after a dispatch: refresh one or all
/// registrations, dial an address, panic as the settings demand, or
/// nothing.
pub enum Followup {
    /// Nothing left to do.
    Done,
    /// Refresh every connection's registration.
    ScheduleAll,
    /// Refresh this connection's registration.
    Schedule(Token),
    /// Resolve this URL and dial its addresses for a fresh connection; the
    /// second field names the connection that asked, when one did, so a
    /// failure can be reported to its handler.
    Dial(String, Option<Token>),
    /// Dial this address again for the given existing connection.
    Redial(Token, String),
    /// The settings turn the failure at hand into a panic; the embedder
    /// panics with this message.
    Panic(String),
}

/// What a refused connect leads to at one connection: dial the next
/// address, panic because the addresses ran out under the panic setting, or
/// fall through to the ordinary error policy.
enum RetryStep {
    /// Dial this address again.
    Redial(String),
    /// Out of addresses while the settings demand a panic.
    PanicExhausted,
    /// No retry: route the error instead.
    Pass,
}

/// The successor of a connection id: a wrapping increment.
pub open spec fn next_id(id: u32) -> u32 {
    if id == u32::MAX {
        0
    } else {
        (id + 1) as u32
    }
}

/// The reactor: every connection, the handler factory, the command queue,
/// the timeout schedule, and the dispatch rules.  One reactor owns all of
/// them; the embedder's event loop feeds it readiness and clock readings.
pub struct Handler<F: Factory> {
    /// The slab of connections: slot `i` holds the connection with token
    /// `i`.
    pub connections: Vec<Option<Connection<<F as Factory>::Handler>>>,
    /// The factory handlers are made by and returned to.
    pub factory: F,
    /// The configuration every connection is built with.
    pub settings: Settings,
    /// Whether the event loop should keep running.
    pub state: State,
    /// The sending end of the command queue, cloned into every `Sender`.
    pub queue_tx: std::sync::mpsc::SyncSender<Command>,
    /// The receiving end of the command queue.
    pub queue_rx: std::sync::mpsc::Receiver<Command>,
    /// The timeout schedule.
    pub timer: Timer<Timeout>,
    /// The id the next connection will carry.
    pub next_connection_id: u32,
    /// Whether a listener is bound, making this a server.
    pub serving: bool,
}

impl<F: Factory> Handler<F> {
    /// Whether slot `t` holds a live connection.
    pub open spec fn has_conn(self, t: int) -> bool {
        0 <= t < self.connections@.len() && self.connections@[t] is Some
    }

    /// The connection in slot `t`.
    pub open spec fn conn_at(self, t: int) -> Connection<<F as Factory>::Handler>
        recommends
            self.has_conn(t),
    {
        self.connections@[t]->Some_0
    }

    /// The slab never changes size, every occupant's token is its slot
    /// index, every occupant is well formed, and so is the timer.
    pub open spec fn wf(self) -> bool {
        &&& self.connections@.len() == self.settings.max_connections
        &&& forall|i: int|
            0 <= i < self.connections@.len() ==> (#[trigger] self.connections@[i] matches Some(c)
                ==> c.token.0 == i && c.wf() && c.settings == self.settings)
        &&& self.timer.wf()
    }

    /// A fresh, inactive reactor with an empty slab and a command queue
    /// bounded by `max_connections * queue_size`.
    pub fn new(factory: F, settings: Settings) -> (h: Handler<F>)
        requires
            settings.max_connections * settings.queue_size <= usize::MAX,
        ensures
            h.wf(),
            h.settings == settings,
            h.state is Inactive,
            h.next_connection_id == 0,
            !h.serving,
            forall|i: int| 0 <= i < h.connections@.len() ==> #[trigger] h.connections@[i] is None,
            h.timer.entries@.len() == 0,
    {
        let bound = settings.max_connections * settings.queue_size;
        let (tx, rx) = command_channel(bound);
        let mut connections: Vec<Option<Connection<<F as Factory>::Handler>>> = Vec::new();
        let mut i: usize = 0;
        while i < settings.max_connections
            invariant
                i == connections@.len(),
                i <= settings.max_connections,
                forall|j: int| 0 <= j < i ==> #[trigger] connections@[j] is None,
            decreases settings.max_connections - i,
        {
            connections.push(None);
            i = i + 1;
        }
        Handler {
            connections,
            factory,
            settings,
            state: State::Inactive,
            queue_tx: tx,
            queue_rx: rx,
            timer: Timer::new(TIMER_CAPACITY),
            next_connection_id: 0,
            serving: false,
        }
    }

    /// A broadcast handle on the command queue, speaking for all
    /// connections.
    pub fn sender(&self) -> (s: Sender)
        ensures
            s.token == Token(ALL),
            s.connection_id == 0,
    {
        Sender::new(Token(ALL), command_sender_clone(&self.queue_tx), 0)
    }

    /// A bare clone of the command queue's sending end.
    pub fn sender_handler(&self) -> std::sync::mpsc::SyncSender<Command> {
        command_sender_clone(&self.queue_tx)
    }

    /// Record that a listener is bound; the embedder owns the socket and
    /// registers it under `ALL`.
    pub fn listen(&mut self)
        ensures
            *final(self) == (Handler { serving: true, ..*old(self) }),
    {
        self.serving = true;
    }

    /// Whether the reactor runs without a listener, purely as a client.
    pub fn is_client(&self) -> (r: bool)
        ensures
            r == !self.serving,
    {
        !self.serving
    }

    /// The first vacant slab slot, if any.
    fn find_vacant(&self) -> (r: Option<usize>)
        ensures
            r matches Some(i) ==> i < self.connections@.len() && self.connections@[i as int]
                is None && forall|j: int| 0 <= j < i ==> #[trigger] self.connections@[j] is Some,
            r is None ==> forall|j: int|
                0 <= j < self.connections@.len() ==> #[trigger] self.connections@[j] is Some,
    {
        let mut i: usize = 0;
        while i < self.connections.len()
            invariant
                i <= self.connections@.len(),
                forall|j: int| 0 <= j < i ==> #[trigger] self.connections@[j] is Some,
            decreases self.connections@.len() - i,
        {
            if self.connections[i].is_none() {
                return Some(i);
            }
            i = i + 1;
        }
        None
    }

    /// Advance the connection-id counter, handing out its current value.
    fn fresh_connection_id(&mut self) -> (id: u32)
        ensures
            id == old(self).next_connection_id,
            *final(self) == (Handler {
                next_connection_id: next_id(old(self).next_connection_id),
                ..*old(self)
            }),
    {
        let id = self.next_connection_id;
        self.next_connection_id = if id == u32::MAX {
            0
        } else {
            id + 1
        };
        id
    }

    /// Take an accepted inbound connection in: allocate a slab slot, tag it
    /// with the current connection id, ask the factory for its handler, and
    /// open it with readable interest.  With no vacancy the connection is
    /// refused with a capacity error and nothing changes but the factory's
    /// and the slab's untouched remainder.
    pub fn accept(&mut self) -> (r: Result<Token, Error>)
        requires
            old(self).wf(),
        ensures
            final(self).wf(),
            final(self).settings == old(self).settings,
            final(self).state == old(self).state,
            final(self).serving == old(self).serving,
            final(self).timer == old(self).timer,
            r is Err <==> (forall|j: int|
                0 <= j < old(self).connections@.len() ==> #[trigger] old(self).connections@[j]
                    is Some),
            r matches Err(e) ==> e.kind == Kind::Capacity && final(self).connections@ == old(
                self,
            ).connections@ && final(self).next_connection_id == old(self).next_connection_id
                && final(self).factory == old(self).factory,
            r matches Ok(t) ==> {
                &&& t.0 < old(self).connections@.len()
                &&& old(self).connections@[t.0 as int] is None
                &&& final(self).connections@.len() == old(self).connections@.len()
                &&& (final(self).connections@[t.0 as int] matches Some(c) && c.token == t
                    && c.connection_id == old(self).next_connection_id && c.state is Open
                    && c.events == (Ready { readable: true, writable: false })
                    && !c.spec_is_client() && c.settings == old(self).settings)
                &&& forall|j: int|
                    0 <= j < old(self).connections@.len() && j != t.0 ==> #[trigger] final(self)
                        .connections@[j] == old(self).connections@[j]
                &&& final(self).next_connection_id == next_id(old(self).next_connection_id)
            },
    {
        let vacant = self.find_vacant();
        match vacant {
            None => Err(
                Error::new(Kind::Capacity, "Unable to add another connection to the event loop."),
            ),
            Some(tok) => {
                let connection_id = self.fresh_connection_id();
                let handler = self.factory.server_connected(
                    Sender::new(Token(tok), command_sender_clone(&self.queue_tx), connection_id),
                );
                let mut conn = Connection::new(Token(tok), handler, self.settings, connection_id);
                let _ = conn.as_server();
                let opened = conn.open();
                assert(opened is Ok);
                self.connections.set(tok, Some(conn));
                Ok(Token(tok))
            },
        }
    }

    /// Begin an outbound connection: allocate a slab slot, tag it, and ask
    /// the factory for its handler.  The new connection stays `Connecting`
    /// with no interest until the embedder has dialed an address and calls
    /// `finish_connect`.  With no vacancy the request is refused with a
    /// capacity error.
    pub fn start_connect(&mut self) -> (r: Result<Token, Error>)
        requires
            old(self).wf(),
        ensures
            final(self).wf(),
            final(self).settings == old(self).settings,
            final(self).state == old(self).state,
            final(self).serving == old(self).serving,
            final(self).timer == old(self).timer,
            r is Err <==> (forall|j: int|
                0 <= j < old(self).connections@.len() ==> #[trigger] old(self).connections@[j]
                    is Some),
            r matches Err(e) ==> e.kind == Kind::Capacity && final(self).connections@ == old(
                self,
            ).connections@ && final(self).next_connection_id == old(self).next_connection_id
                && final(self).factory == old(self).factory,
            r matches Ok(t) ==> {
                &&& t.0 < old(self).connections@.len()
                &&& old(self).connections@[t.0 as int] is None
                &&& final(self).connections@.len() == old(self).connections@.len()
                &&& (final(self).connections@[t.0 as int] matches Some(c) && c.token == t
                    && c.connection_id == old(self).next_connection_id && c.state is Connecting
                    && c.settings == old(self).settings)
                &&& forall|j: int|
                    0 <= j < old(self).connections@.len() && j != t.0 ==> #[trigger] final(self)
                        .connections@[j] == old(self).connections@[j]
                &&& final(self).next_connection_id == next_id(old(self).next_connection_id)
            },
    {
        let vacant = self.find_vacant();
        match vacant {
            None => Err(
                Error::new(Kind::Capacity, "Unable to add another connection to the event loop."),
            ),
            Some(tok) => {
                let connection_id = self.fresh_connection_id();
                let handler = self.factory.client_connected(
                    Sender::new(Token(tok), command_sender_clone(&self.queue_tx), connection_id),
                );
                let conn = Connection::new(Token(tok), handler, self.settings, connection_id);
                self.connections.set(tok, Some(conn));
                Ok(Token(tok))
            },
        }
    }

    /// Finish an outbound connection the embedder has dialed: open it and
    /// finalize the client role with the URL and the addresses left for
    /// retries.  A token that holds no connection fails with an internal
    /// error.
    pub fn finish_connect(&mut self, token: Token, url: String, addrs: Vec<String>) -> (r: Result<
        (),
        Error,
    >)
        requires
            old(self).wf(),
        ensures
            final(self).wf(),
            final(self).connections@.len() == old(self).connections@.len(),
            final(self).settings == old(self).settings,
            final(self).state == old(self).state,
            final(self).serving == old(self).serving,
            final(self).timer == old(self).timer,
            final(self).next_connection_id == old(self).next_connection_id,
            forall|j: int|
                0 <= j < old(self).connections@.len() && j != token.0 ==> #[trigger] final(self)
                    .connections@[j] == old(self).connections@[j],
            r is Ok <==> (old(self).has_conn(token.0 as int) && old(self).conn_at(
                token.0 as int,
            ).state is Connecting),
            r is Ok ==> (final(self).connections@[token.0 as int] matches Some(c) && c.state
                is Open && c.spec_is_client() && c.addresses@ == addrs@ && c.events == (Ready {
                readable: true,
                writable: old(self).conn_at(token.0 as int).events.writable,
            }) && c.connection_id == old(self).conn_at(token.0 as int).connection_id),
            r matches Err(e) ==> e.kind == Kind::Internal,
    {
        if token.0 >= self.connections.len() {
            return Err(Error::new(Kind::Internal, "No such connection."));
        }
        let slot = &mut self.connections[token.0];
        match slot.as_mut() {
            None => Err(Error::new(Kind::Internal, "No such connection.")),
            Some(conn) => {
                let opened = conn.open();
                match opened {
                    Ok(()) => {
                        let set = conn.as_client(url, addrs);
                        assert(set is Ok);
                        Ok(())
                    },
                    Err(e) => Err(e),
                }
            },
        }
    }

    /// Remove a connection from the slab, handing its handler back to the
    /// factory.  A token that holds no connection changes nothing.
    pub fn remove_connection(&mut self, token: Token)
        requires
            old(self).wf(),
        ensures
            final(self).wf(),
            final(self).connections@.len() == old(self).connections@.len(),
            final(self).settings == old(self).settings,
            final(self).state == old(self).state,
            final(self).serving == old(self).serving,
            final(self).timer == old(self).timer,
            final(self).next_connection_id == old(self).next_connection_id,
            token.0 < old(self).connections@.len() ==> final(self).connections@[token.0 as int]
                is None,
            forall|j: int|
                0 <= j < old(self).connections@.len() && j != token.0 ==> #[trigger] final(self)
                    .connections@[j] == old(self).connections@[j],
    {
        if token.0 >= self.connections.len() {
            return ;
        }
        let mut taken: Option<Connection<<F as Factory>::Handler>> = None;
        core::mem::swap(&mut taken, &mut self.connections[token.0]);
        match taken {
            None => {},
            Some(conn) => {
                let handler = conn.consume();
                self.factory.connection_lost(handler);
            },
        }
    }

    /// The readiness mask the connection at this token currently asks for.
    pub fn events_at(&self, token: Token) -> (r: Option<Ready>)
        ensures
            self.has_conn(token.0 as int) ==> r == Some(self.conn_at(token.0 as int).events),
            !self.has_conn(token.0 as int) ==> r is None,
    {
        if token.0 >= self.connections.len() {
            return None;
        }
        match &self.connections[token.0] {
            None => None,
            Some(conn) => Some(conn.events()),
        }
    }

    /// A copy of the unread output of the connection at this token, for the
    /// embedder to hand to the socket.
    pub fn out_bytes_at(&self, token: Token) -> (r: Option<Vec<u8>>)
        requires
            self.wf(),
        ensures
            self.has_conn(token.0 as int) ==> (r matches Some(out) && out@ == self.conn_at(
                token.0 as int,
            ).out_buffer.unread()),
            !self.has_conn(token.0 as int) ==> r is None,
    {
        if token.0 >= self.connections.len() {
            return None;
        }
        match &self.connections[token.0] {
            None => None,
            Some(conn) => Some(conn.out_buffer.unread_bytes()),
        }
    }

    /// Drive one read pulse on the connection at this token with the bytes
    /// the embedder's socket produced.  A token that holds no connection
    /// reads nothing.
    pub fn read_at(&mut self, token: Token, chunk: Option<&[u8]>) -> (r: Result<bool, Error>)
        requires
            old(self).wf(),
        ensures
            final(self).wf(),
            final(self).connections@.len() == old(self).connections@.len(),
            final(self).settings == old(self).settings,
            final(self).state == old(self).state,
            final(self).serving == old(self).serving,
            final(self).timer == old(self).timer,
            final(self).next_connection_id == old(self).next_connection_id,
            forall|j: int|
                0 <= j < old(self).connections@.len() && j != token.0 ==> #[trigger] final(self)
                    .connections@[j] == old(self).connections@[j],
            !old(self).has_conn(token.0 as int) ==> (r matches Ok(more) && !more) && final(self).connections@ == old(self).connections@,
            old(self).has_conn(token.0 as int) ==> ({
                let c = old(self).conn_at(token.0 as int);
                &&& c.state is Connecting ==> (r matches Err(e) && e.kind == Kind::Internal)
                    && final(self).connections@ == old(self).connections@
                &&& final(self).has_conn(token.0 as int)
                &&& {
                    let c2 = final(self).conn_at(token.0 as int);
                    &&& c2.state == c.state
                    &&& c2.token == c.token
                    &&& c2.connection_id == c.connection_id
                    &&& c2.out_buffer == c.out_buffer
                    &&& !(c.state is Connecting) ==> {
                        &&& chunk is None ==> (r matches Ok(more) && !more) && c2 == c
                        &&& chunk matches Some(b) ==> {
                            &&& (!c.settings.in_buffer_grow && c.in_buffer.cap
                                <= c.in_buffer.data@.len() + b@.len() && c.in_buffer.cap
                                <= c.in_buffer.unread().len() + b@.len()) ==> (r matches Err(e)
                                && e.kind == Kind::Capacity)
                            &&& !valid_utf8(c.in_buffer.unread() + b@) && (
                            c.settings.in_buffer_grow || c.in_buffer.cap
                                > c.in_buffer.unread().len() + b@.len()) ==> (r matches Err(e)
                                && e.kind == Kind::Encoding)
                            &&& (c.settings.in_buffer_grow || c.in_buffer.cap
                                > c.in_buffer.unread().len() + b@.len())
                                ==> c2.in_buffer.unread().len() == 0
                            &&& r matches Ok(more) ==> (more <==> b@.len() > 0)
                            &&& r is Ok && b@.len() > 0 ==> c2.events == c.events
                            &&& r is Ok && b@.len() == 0 && c.events.writable ==> c2.events == (
                            Ready { readable: false, writable: true })
                            &&& r is Ok && b@.len() == 0 && !c.events.writable ==> c2.events == (
                            Ready { readable: false, writable: false })
                        }
                    }
                }
            }),
            r is Ok && old(self).has_conn(token.0 as int) && old(self).conn_at(
                token.0 as int,
            ).events.readable && !(chunk matches Some(b) && b@.len() == 0) ==> final(self).conn_at(
                token.0 as int,
            ).events.readable,
    {
        if token.0 >= self.connections.len() {
            return Ok(false);
        }
        let slot = &mut self.connections[token.0];
        match slot.as_mut() {
            None => Ok(false),
            Some(conn) => conn.read(chunk),
        }
    }

    /// Drive one write pulse on the connection at this token after the
    /// embedder's socket took `wrote` bytes of its unread output.
    pub fn write_at(&mut self, token: Token, wrote: Option<usize>) -> (r: Result<(), Error>)
        requires
            old(self).wf(),
            old(self).has_conn(token.0 as int) ==> (wrote matches Some(n) ==> n <= old(
                self,
            ).conn_at(token.0 as int).out_buffer.unread().len()),
        ensures
            final(self).wf(),
            final(self).connections@.len() == old(self).connections@.len(),
            final(self).settings == old(self).settings,
            final(self).state == old(self).state,
            final(self).serving == old(self).serving,
            final(self).timer == old(self).timer,
            final(self).next_connection_id == old(self).next_connection_id,
            forall|j: int|
                0 <= j < old(self).connections@.len() && j != token.0 ==> #[trigger] final(self)
                    .connections@[j] == old(self).connections@[j],
            !old(self).has_conn(token.0 as int) ==> r is Ok && final(self).connections@ == old(
                self,
            ).connections@,
            old(self).has_conn(token.0 as int) ==> ({
                let c = old(self).conn_at(token.0 as int);
                &&& c.state is Connecting ==> (r matches Err(e) && e.kind == Kind::Internal)
                    && final(self).connections@ == old(self).connections@
                &&& final(self).has_conn(token.0 as int)
                &&& {
                    let c2 = final(self).conn_at(token.0 as int);
                    &&& c2.state == c.state
                    &&& c2.token == c.token
                    &&& c2.connection_id == c.connection_id
                    &&& c2.in_buffer == c.in_buffer
                    &&& !(c.state is Connecting) ==> {
                        &&& r is Ok
                        &&& wrote is None ==> c2.out_buffer == c.out_buffer && c2.events == (
                        Ready { readable: true, writable: c.out_buffer.unread().len() > 0 })
                        &&& wrote matches Some(n) ==> {
                            &&& c2.out_buffer.unread() == c.out_buffer.unread().skip(n as int)
                            &&& (n == 0 && c.state is FinishedClose && !c.spec_is_client())
                                ==> c2.events == (Ready { readable: false, writable: false })
                            &&& !(n == 0 && c.state is FinishedClose && !c.spec_is_client())
                                ==> c2.events == (Ready {
                                readable: true,
                                writable: c2.out_buffer.unread().len() > 0,
                            })
                        }
                    }
                }
            }),
    {
        if token.0 >= self.connections.len() {
            return Ok(());
        }
        let slot = &mut self.connections[token.0];
        match slot.as_mut() {
            None => Ok(()),
            Some(conn) => conn.write(wrote),
        }
    }

    /// Route an error on the connection at this token through the error
    /// policy; when the settings turn that kind into a panic, the embedder
    /// is told to panic instead, before the handler hears of it.
    pub fn error_at(&mut self, token: Token, err: Error) -> (r: Followup)
        requires
            old(self).wf(),
        ensures
            final(self).wf(),
            final(self).connections@.len() == old(self).connections@.len(),
            final(self).settings == old(self).settings,
            final(self).state == old(self).state,
            final(self).serving == old(self).serving,
            final(self).timer == old(self).timer,
            final(self).next_connection_id == old(self).next_connection_id,
            forall|j: int|
                0 <= j < old(self).connections@.len() && j != token.0 ==> #[trigger] final(self)
                    .connections@[j] == old(self).connections@[j],
            r is Done || r is Panic,
            panics_on(old(self).settings, err.kind) ==> r is Panic && final(self).connections@
                == old(self).connections@,
            !panics_on(old(self).settings, err.kind) ==> r is Done,
            !panics_on(old(self).settings, err.kind) && old(self).has_conn(token.0 as int) ==> ({
                let c = old(self).conn_at(token.0 as int);
                &&& final(self).has_conn(token.0 as int)
                &&& {
                    let c2 = final(self).conn_at(token.0 as int);
                    &&& c2.token == c.token
                    &&& c2.connection_id == c.connection_id
                    &&& c2.in_buffer == c.in_buffer
                    &&& state_rank(c2.state) >= state_rank(c.state)
                    &&& c.state is Connecting ==> c2.state == c.state && c2.out_buffer
                        == c.out_buffer && (!c.spec_is_client() ==> c2.events == (Ready {
                        readable: false,
                        writable: true,
                    })) && (c.spec_is_client() ==> c2.events == (Ready {
                        readable: false,
                        writable: false,
                    }))
                    &&& !(c.state is Connecting) ==> {
                        &&& (err.kind == Kind::Internal || err.kind == Kind::Capacity || err.kind
                            == Kind::Protocol || err.kind == Kind::Encoding) ==> c2.state
                            == close_next(c.state) && c2.events == (Ready {
                            readable: true,
                            writable: c.events.writable || c.out_buffer.unread().len() > 0,
                        }) && c2.out_buffer == c.out_buffer
                        &&& (err.kind == Kind::Http || err.kind matches Kind::Io(_)) ==> c2.state
                            == c.state && c2.events == (Ready {
                            readable: false,
                            writable: false,
                        }) && c2.out_buffer == c.out_buffer
                        &&& (err.kind == Kind::Custom || err.kind == Kind::Timer || err.kind
                            == Kind::Queue) ==> c2 == (Connection {
                            handler: c2.handler,
                            ..c
                        })
                    }
                }
            }),
    {
        if settings_panic_on(&self.settings, &err.kind) {
            return Followup::Panic(err.message());
        }
        if token.0 >= self.connections.len() {
            return Followup::Done;
        }
        let slot = &mut self.connections[token.0];
        match slot.as_mut() {
            None => Followup::Done,
            Some(conn) => {
                conn.error(err);
                Followup::Done
            },
        }
    }

    /// Recover from a failed read or write pulse: a refused connect on a
    /// client with addresses left is retried by handing the next address
    /// back for dialing; everything else goes through the error policy.
    pub fn pulse_failed(&mut self, token: Token, err: Error) -> (r: Followup)
        requires
            old(self).wf(),
        ensures
            final(self).wf(),
            final(self).connections@.len() == old(self).connections@.len(),
            final(self).settings == old(self).settings,
            final(self).state == old(self).state,
            final(self).serving == old(self).serving,
            final(self).timer == old(self).timer,
            final(self).next_connection_id == old(self).next_connection_id,
            forall|j: int|
                0 <= j < old(self).connections@.len() && j != token.0 ==> #[trigger] final(self)
                    .connections@[j] == old(self).connections@[j],
            r matches Followup::Redial(tok, addr) ==> tok == token && old(self).has_conn(
                token.0 as int,
            ) && ({
                let c = old(self).conn_at(token.0 as int);
                &&& c.spec_is_client()
                &&& c.addresses@.len() > 0
                &&& addr == c.addresses@.last()
                &&& final(self).has_conn(token.0 as int)
                &&& final(self).conn_at(token.0 as int).addresses@ == c.addresses@.drop_last()
                &&& final(self).conn_at(token.0 as int).events == (Ready {
                    readable: true,
                    writable: false,
                })
            }),
            (err.kind == Kind::Io(Some(CONNECTION_REFUSED)) && old(self).has_conn(
                token.0 as int,
            )) ==> (old(self).conn_at(token.0 as int).spec_is_client() && old(self).conn_at(
                token.0 as int,
            ).addresses@.len() > 0 ==> r is Redial),
            (err.kind == Kind::Io(Some(CONNECTION_REFUSED)) && old(self).has_conn(
                token.0 as int,
            )) ==> (old(self).conn_at(token.0 as int).spec_is_client() && old(self).conn_at(
                token.0 as int,
            ).addresses@.len() == 0 && old(self).settings.panic_on_new_connection ==> r is Panic
                && final(self).connections@ == old(self).connections@),
    {
        let refused = matches!(err.kind, Kind::Io(Some(CONNECTION_REFUSED)));
        if refused && token.0 < self.connections.len() {
            let step: RetryStep = {
                let slot = &mut self.connections[token.0];
                match slot.as_mut() {
                    None => RetryStep::Pass,
                    Some(conn) => {
                        if conn.is_client() {
                            if conn.addresses.len() == 0 && conn.settings.panic_on_new_connection {
                                RetryStep::PanicExhausted
                            } else {
                                match conn.reset() {
                                    Ok(addr) => RetryStep::Redial(addr),
                                    Err(_) => RetryStep::Pass,
                                }
                            }
                        } else {
                            RetryStep::Pass
                        }
                    },
                }
            };
            match step {
                RetryStep::Redial(addr) => {
                    return Followup::Redial(token, addr);
                },
                RetryStep::PanicExhausted => {
                    return Followup::Panic("Unable to connect to server.".to_owned());
                },
                RetryStep::Pass => {},
            }
        }
        self.error_at(token, err)
    }

    /// After an event: a connection that no longer asks for anything is
    /// removed and its handler returned to the factory; one still
    /// interested has its registration refreshed by the embedder.
    pub fn check_active(&mut self, token: Token) -> (needs_schedule: bool)
        requires
            old(self).wf(),
        ensures
            final(self).wf(),
            final(self).connections@.len() == old(self).connections@.len(),
            final(self).settings == old(self).settings,
            final(self).state == old(self).state,
            final(self).serving == old(self).serving,
            final(self).timer == old(self).timer,
            final(self).next_connection_id == old(self).next_connection_id,
            forall|j: int|
                0 <= j < old(self).connections@.len() && j != token.0 ==> #[trigger] final(self)
                    .connections@[j] == old(self).connections@[j],
            needs_schedule <==> (old(self).has_conn(token.0 as int) && (old(self).conn_at(
                token.0 as int,
            ).events.readable || old(self).conn_at(token.0 as int).events.writable)),
            needs_schedule ==> final(self).connections@ == old(self).connections@,
            token.0 < old(self).connections@.len() && !needs_schedule ==> final(self)
                .connections@[token.0 as int] is None,
    {
        let active = match self.events_at(token) {
            None => false,
            Some(ev) => ev.is_readable() || ev.is_writable(),
        };
        if !active {
            self.remove_connection(token);
            false
        } else {
            true
        }
    }

    /// Whether the slab holds no connection at all.
    pub fn is_idle(&self) -> (r: bool)
        ensures
            r <==> (forall|j: int|
                0 <= j < self.connections@.len() ==> #[trigger] self.connections@[j] is None),
    {
        let mut i: usize = 0;
        while i < self.connections.len()
            invariant
                i <= self.connections@.len(),
                forall|j: int| 0 <= j < i ==> #[trigger] self.connections@[j] is None,
            decreases self.connections@.len() - i,
        {
            if self.connections[i].is_some() {
                return false;
            }
            i = i + 1;
        }
        true
    }

    /// Wind every connection down: each handler hears `on_shutdown`, every
    /// opened connection drives a best-effort close, the factory hears
    /// `on_shutdown`, and the event loop is told to stop.
    pub fn shutdown(&mut self)
        requires
            old(self).wf(),
        ensures
            final(self).wf(),
            final(self).connections@.len() == old(self).connections@.len(),
            final(self).settings == old(self).settings,
            final(self).serving == old(self).serving,
            final(self).timer == old(self).timer,
            final(self).next_connection_id == old(self).next_connection_id,
            final(self).state is Inactive,
            forall|j: int|
                0 <= j < old(self).connections@.len() ==> ((#[trigger] old(self).connections@[j])
                    is Some <==> final(self).connections@[j] is Some),
            forall|j: int|
                0 <= j < old(self).connections@.len() ==> (#[trigger] old(self).connections@[j]
                    matches Some(c) ==> (final(self).connections@[j] matches Some(c2)
                    && c2.token == c.token && c2.connection_id == c.connection_id && c2.state
                    == (if c.state is Connecting {
                    c.state
                } else {
                    close_next(c.state)
                }))),
    {
        let n = self.connections.len();
        let mut i: usize = 0;
        while i < n
            invariant
                self.wf(),
                n == self.connections@.len(),
                n == old(self).connections@.len(),
                i <= n,
                self.settings == old(self).settings,
                self.serving == old(self).serving,
                self.timer == old(self).timer,
                self.next_connection_id == old(self).next_connection_id,
                self.state == old(self).state,
                forall|j: int|
                    i <= j < n ==> #[trigger] self.connections@[j] == old(self).connections@[j],
                forall|j: int|
                    0 <= j < i ==> ((#[trigger] old(self).connections@[j]) is Some <==> self
                        .connections@[j] is Some),
                forall|j: int|
                    0 <= j < i ==> (#[trigger] old(self).connections@[j] matches Some(c) ==> (
                    self.connections@[j] matches Some(c2) && c2.token == c.token
                        && c2.connection_id == c.connection_id && c2.state == (
                    if c.state is Connecting {
                        c.state
                    } else {
                        close_next(c.state)
                    }))),
            decreases n - i,
        {
            let slot = &mut self.connections[i];
            match slot.as_mut() {
                None => {},
                Some(conn) => {
                    conn.shutdown();
                },
            }
            i = i + 1;
        }
        self.factory.on_shutdown();
        self.state = State::Inactive;
    }

    /// After a pulse: a purely client-side reactor with an empty slab has
    /// nothing left to wait for, so its factory hears `on_shutdown` and the
    /// event loop is told to stop.
    pub fn check_count(&mut self)
        requires
            old(self).wf(),
        ensures
            final(self).wf(),
            final(self).connections@ == old(self).connections@,
            final(self).settings == old(self).settings,
            final(self).serving == old(self).serving,
            final(self).timer == old(self).timer,
            final(self).next_connection_id == old(self).next_connection_id,
            (old(self).state is Active && !old(self).serving && (forall|j: int|
                0 <= j < old(self).connections@.len() ==> #[trigger] old(self).connections@[j]
                    is None)) ==> final(self).state is Inactive,
            !(old(self).state is Active && !old(self).serving && (forall|j: int|
                0 <= j < old(self).connections@.len() ==> #[trigger] old(self).connections@[j]
                    is None)) ==> final(self).state == old(self).state,
    {
        if self.is_idle() {
            if self.state.is_active() && self.is_client() {
                self.factory.on_shutdown();
                self.state = State::Inactive;
            }
        }
    }

    /// Deliver a fired timeout to the connection it belongs to, and decide
    /// what the connection needs next: a refreshed registration, removal,
    /// or, when the settings turn a handler failure into a panic, a panic.
    /// A timeout whose connection is gone fires into nothing.
    pub fn handle_timeout(&mut self, t: Timeout) -> (f: Followup)
        requires
            old(self).wf(),
        ensures
            final(self).wf(),
            final(self).connections@.len() == old(self).connections@.len(),
            final(self).settings == old(self).settings,
            final(self).state == old(self).state,
            final(self).serving == old(self).serving,
            final(self).timer == old(self).timer,
            final(self).next_connection_id == old(self).next_connection_id,
            forall|j: int|
                0 <= j < old(self).connections@.len() && j != t.connection.0
                    ==> #[trigger] final(self).connections@[j] == old(self).connections@[j],
            !old(self).has_conn(t.connection.0 as int) ==> f is Done && final(self).connections@
                == old(self).connections@,
            f matches Followup::Schedule(tok) ==> tok == t.connection && final(self).has_conn(
                t.connection.0 as int,
            ),
            old(self).has_conn(t.connection.0 as int) ==> (f is Panic || (f
                matches Followup::Schedule(tok) && tok == t.connection && final(self).has_conn(
                t.connection.0 as int,
            )) || (f is Done && final(self).connections@[t.connection.0 as int] is None)),
    {
        if t.connection.0 >= self.connections.len() {
            return Followup::Done;
        }
        let outcome: Option<Error> = {
            let slot = &mut self.connections[t.connection.0];
            match slot.as_mut() {
                None => {
                    return Followup::Done;
                },
                Some(conn) => {
                    match conn.timeout_triggered(t.event) {
                        Ok(()) => None,
                        Err(e) => Some(e),
                    }
                },
            }
        };
        match outcome {
            None => {},
            Some(e) => {
                match self.error_at(t.connection, e) {
                    Followup::Panic(msg) => {
                        return Followup::Panic(msg);
                    },
                    _ => {},
                }
            },
        }
        if self.check_active(t.connection) {
            Followup::Schedule(t.connection)
        } else {
            Followup::Done
        }
    }

    /// The next queued command, when one is waiting.
    pub fn next_command(&self) -> Option<Command> {
        command_try_recv(&self.queue_rx)
    }

    /// Start the event loop: the reactor runs until told otherwise.
    pub fn activate(&mut self)
        ensures
            *final(self) == (Handler { state: State::Active, ..*old(self) }),
    {
        self.state = State::Active;
    }

    /// The decision on an interrupted poll: stop the loop when the settings
    /// treat an interrupt as a shutdown signal, else keep running.
    pub fn poll_interrupted(&mut self)
        ensures
            old(self).settings.shutdown_on_interrupt ==> *final(self) == (Handler {
                state: State::Inactive,
                ..*old(self)
            }),
            !old(self).settings.shutdown_on_interrupt ==> *final(self) == *old(self),
    {
        if self.settings.shutdown_on_interrupt {
            self.state = State::Inactive;
        }
    }

    /// Queue a message on every connection, in slab order.  Per-connection
    /// failures are collected during the sweep and routed through the error
    /// policy only afterwards, so every connection is offered the message;
    /// when the settings turn one of those failures into a panic, the
    /// injection stops and the panic message is handed back.
    fn broadcast_message(&mut self, msg: Message) -> (panic: Option<String>)
        requires
            old(self).wf(),
        ensures
            final(self).wf(),
            final(self).connections@.len() == old(self).connections@.len(),
            final(self).settings == old(self).settings,
            final(self).state == old(self).state,
            final(self).serving == old(self).serving,
            final(self).timer == old(self).timer,
            final(self).next_connection_id == old(self).next_connection_id,
            forall|j: int|
                0 <= j < old(self).connections@.len() ==> ((#[trigger] old(self).connections@[j])
                    is Some <==> final(self).connections@[j] is Some),
            forall|j: int|
                0 <= j < old(self).connections@.len() ==> (#[trigger] old(self).connections@[j]
                    matches Some(c) ==> (final(self).connections@[j] matches Some(c2) && c2.token
                    == c.token && c2.connection_id == c.connection_id)),
            forall|j: int|
                0 <= j < old(self).connections@.len() ==> (#[trigger] old(self).connections@[j]
                    matches Some(c) ==> ((!(c.state is AwaitingClose || c.state is FinishedClose)
                    && !c.send_overflows(msg.spec_len())) ==> (final(self).connections@[j]
                    matches Some(c2) && c2.out_buffer.unread() == c.out_buffer.unread()
                    + msg.spec_data()))),
    {
        let n = self.connections.len();
        let mut dead: Vec<(usize, Error)> = Vec::new();
        let mut i: usize = 0;
        while i < n
            invariant
                self.wf(),
                n == self.connections@.len(),
                n == old(self).connections@.len(),
                i <= n,
                self.settings == old(self).settings,
                self.state == old(self).state,
                self.serving == old(self).serving,
                self.timer == old(self).timer,
                self.next_connection_id == old(self).next_connection_id,
                forall|j: int|
                    i <= j < n ==> #[trigger] self.connections@[j] == old(self).connections@[j],
                forall|j: int|
                    0 <= j < i ==> ((#[trigger] old(self).connections@[j]) is Some <==> self
                        .connections@[j] is Some),
                forall|j: int|
                    0 <= j < i ==> (#[trigger] old(self).connections@[j] matches Some(c) ==> (
                    self.connections@[j] matches Some(c2) && c2.token == c.token
                        && c2.connection_id == c.connection_id)),
                forall|j: int|
                    0 <= j < i ==> (#[trigger] old(self).connections@[j] matches Some(c) ==> ((!(
                    c.state is AwaitingClose || c.state is FinishedClose) && !c.send_overflows(
                        msg.spec_len(),
                    )) ==> (self.connections@[j] matches Some(c2) && c2.out_buffer.unread()
                        == c.out_buffer.unread() + msg.spec_data()))),
                forall|k: int|
                    0 <= k < dead@.len() ==> ({
                        let t = #[trigger] dead@[k].0 as int;
                        &&& 0 <= t < n
                        &&& old(self).connections@[t] matches Some(c) && c.send_overflows(
                            msg.spec_len(),
                        )
                    }),
            decreases n - i,
        {
            let outcome: Option<Error> = {
                let slot = &mut self.connections[i];
                match slot.as_mut() {
                    None => None,
                    Some(conn) => {
                        let copy = msg.clone();
                        match conn.send_message(copy) {
                            Ok(()) => None,
                            Err(e) => Some(e),
                        }
                    },
                }
            };
            match outcome {
                None => {},
                Some(e) => {
                    dead.push((i, e));
                },
            }
            i = i + 1;
        }
        while dead.len() > 0
            invariant
                self.wf(),
                n == self.connections@.len(),
                n == old(self).connections@.len(),
                self.settings == old(self).settings,
                self.state == old(self).state,
                self.serving == old(self).serving,
                self.timer == old(self).timer,
                self.next_connection_id == old(self).next_connection_id,
                forall|j: int|
                    0 <= j < n ==> ((#[trigger] old(self).connections@[j]) is Some <==> self
                        .connections@[j] is Some),
                forall|j: int|
                    0 <= j < n ==> (#[trigger] old(self).connections@[j] matches Some(c) ==> (
                    self.connections@[j] matches Some(c2) && c2.token == c.token
                        && c2.connection_id == c.connection_id)),
                forall|j: int|
                    0 <= j < n ==> (#[trigger] old(self).connections@[j] matches Some(c) ==> ((!(
                    c.state is AwaitingClose || c.state is FinishedClose) && !c.send_overflows(
                        msg.spec_len(),
                    )) ==> (self.connections@[j] matches Some(c2) && c2.out_buffer.unread()
                        == c.out_buffer.unread() + msg.spec_data()))),
                forall|k: int|
                    0 <= k < dead@.len() ==> ({
                        let t = #[trigger] dead@[k].0 as int;
                        &&& 0 <= t < n
                        &&& old(self).connections@[t] matches Some(c) && c.send_overflows(
                            msg.spec_len(),
                        )
                    }),
            decreases dead@.len(),
        {
            let (t, e) = dead.remove(0);
            match self.error_at(Token(t), e) {
                Followup::Panic(panic_msg) => {
                    return Some(panic_msg);
                },
                _ => {},
            }
        }
        None
    }

    /// Drive the close handshake on every opened connection, in slab
    /// order.  Connections still `Connecting` have no close to drive and
    /// stay as they are.
    fn broadcast_close(&mut self, code: CloseCode, reason: &str)
        requires
            old(self).wf(),
        ensures
            final(self).wf(),
            final(self).connections@.len() == old(self).connections@.len(),
            final(self).settings == old(self).settings,
            final(self).state == old(self).state,
            final(self).serving == old(self).serving,
            final(self).timer == old(self).timer,
            final(self).next_connection_id == old(self).next_connection_id,
            forall|j: int|
                0 <= j < old(self).connections@.len() ==> ((#[trigger] old(self).connections@[j])
                    is Some <==> final(self).connections@[j] is Some),
            forall|j: int|
                0 <= j < old(self).connections@.len() ==> (#[trigger] old(self).connections@[j]
                    matches Some(c) ==> (final(self).connections@[j] matches Some(c2) && c2.token
                    == c.token && c2.connection_id == c.connection_id && c2.state == (
                if c.state is Connecting {
                    c.state
                } else {
                    close_next(c.state)
                }))),
    {
        let n = self.connections.len();
        let mut i: usize = 0;
        while i < n
            invariant
                self.wf(),
                n == self.connections@.len(),
                n == old(self).connections@.len(),
                i <= n,
                self.settings == old(self).settings,
                self.state == old(self).state,
                self.serving == old(self).serving,
                self.timer == old(self).timer,
                self.next_connection_id == old(self).next_connection_id,
                forall|j: int|
                    i <= j < n ==> #[trigger] self.connections@[j] == old(self).connections@[j],
                forall|j: int|
                    0 <= j < i ==> ((#[trigger] old(self).connections@[j]) is Some <==> self
                        .connections@[j] is Some),
                forall|j: int|
                    0 <= j < i ==> (#[trigger] old(self).connections@[j] matches Some(c) ==> (
                    self.connections@[j] matches Some(c2) && c2.token == c.token
                        && c2.connection_id == c.connection_id && c2.state == (
                    if c.state is Connecting {
                        c.state
                    } else {
                        close_next(c.state)
                    }))),
            decreases n - i,
        {
            let slot = &mut self.connections[i];
            match slot.as_mut() {
                None => {},
                Some(conn) => {
                    if !conn.state.is_connecting() {
                        let _ = conn.send_close(code, reason);
                    }
                },
            }
            i = i + 1;
        }
    }

    /// Hand a fresh timeout handle to every connection's handler.
    fn broadcast_new_timeout(&mut self, event: Token, handle: crate::util::Timeout) -> (panic:
        Option<String>)
        requires
            old(self).wf(),
        ensures
            final(self).wf(),
            final(self).connections@.len() == old(self).connections@.len(),
            final(self).settings == old(self).settings,
            final(self).state == old(self).state,
            final(self).serving == old(self).serving,
            final(self).timer == old(self).timer,
            final(self).next_connection_id == old(self).next_connection_id,
            forall|j: int|
                0 <= j < old(self).connections@.len() ==> ((#[trigger] old(self).connections@[j])
                    is Some <==> final(self).connections@[j] is Some),
            forall|j: int|
                0 <= j < old(self).connections@.len() ==> (#[trigger] old(self).connections@[j]
                    matches Some(c) ==> (final(self).connections@[j] matches Some(c2) && c2.token
                    == c.token && c2.connection_id == c.connection_id)),
    {
        let n = self.connections.len();
        let mut i: usize = 0;
        while i < n
            invariant
                self.wf(),
                n == self.connections@.len(),
                n == old(self).connections@.len(),
                i <= n,
                self.settings == old(self).settings,
                self.state == old(self).state,
                self.serving == old(self).serving,
                self.timer == old(self).timer,
                self.next_connection_id == old(self).next_connection_id,
                forall|j: int|
                    i <= j < n ==> #[trigger] self.connections@[j] == old(self).connections@[j],
                forall|j: int|
                    0 <= j < i ==> ((#[trigger] old(self).connections@[j]) is Some <==> self
                        .connections@[j] is Some),
                forall|j: int|
                    0 <= j < i ==> (#[trigger] old(self).connections@[j] matches Some(c) ==> (
                    self.connections@[j] matches Some(c2) && c2.token == c.token
                        && c2.connection_id == c.connection_id)),
            decreases n - i,
        {
            let outcome: Option<Error> = {
                let slot = &mut self.connections[i];
                match slot.as_mut() {
                    None => None,
                    Some(conn) => {
                        match conn.new_timeout(event, handle) {
                            Ok(()) => None,
                            Err(e) => Some(e),
                        }
                    },
                }
            };
            match outcome {
                None => {},
                Some(e) => {
                    if settings_panic_on(&self.settings, &e.kind) {
                        return Some(e.message());
                    }
                    let slot = &mut self.connections[i];
                    match slot.as_mut() {
                        None => {},
                        Some(conn) => {
                            conn.error(e);
                        },
                    }
                },
            }
            i = i + 1;
        }
        None
    }
}

/// Every live connection's token is its slab index: what a well-formed
/// reactor stores at slot `t` answers to token `t`.
pub proof fn lemma_token_is_slab_index<F: Factory>(h: Handler<F>, t: int)
    requires
        h.wf(),
        h.has_conn(t),
    ensures
        h.conn_at(t).token.0 == t,
{
}

/// A fresh connection id is handed out exactly once before the counter
/// moves on: the successor of an id never equals the id itself.
pub proof fn lemma_connection_id_advances(id: u32)
    ensures
        next_id(id) != id,
{
}

/// The deadline a delay yields on the embedder's millisecond clock,
/// saturating at the clock's end.
pub open spec fn deadline_of(now: u64, delay: u64) -> u64 {
    if delay > u64::MAX - now {
        u64::MAX
    } else {
        (now + delay) as u64
    }
}

impl<F: Factory> Handler<F> {
    /// Apply one dequeued command, at clock reading `now`.  A command
    /// addressed to `ALL` reaches every connection; one addressed to a
    /// single token reaches its connection only while the occupant still
    /// carries the command's generation tag — a message or close whose tag
    /// no longer matches is dropped without side effects.  Connect requests
    /// come back as a dial for the embedder; timeouts go on the schedule.
    pub fn handle_queue(&mut self, cmd: Command, now: u64) -> (f: Followup)
        requires
            old(self).wf(),
        ensures
            final(self).wf(),
            final(self).connections@.len() == old(self).connections@.len(),
            final(self).settings == old(self).settings,
            final(self).serving == old(self).serving,
            final(self).next_connection_id == old(self).next_connection_id,
            cmd.token.0 == SYSTEM ==> *final(self) == *old(self) && f is Done,
            (cmd.token.0 != ALL && cmd.token.0 != SYSTEM && (cmd.signal matches Signal::Message(
                _,
            ) || cmd.signal matches Signal::Close(_, _))) ==> {
                &&& !old(self).has_conn(cmd.token.0 as int) ==> final(self).connections@ == old(
                    self,
                ).connections@ && final(self).timer == old(self).timer && final(self).state
                    == old(self).state && final(self).factory == old(self).factory
                &&& (old(self).has_conn(cmd.token.0 as int) && old(self).conn_at(
                    cmd.token.0 as int,
                ).connection_id != cmd.connection_id) ==> final(self).connections@ == old(
                    self,
                ).connections@ && final(self).timer == old(self).timer && final(self).state
                    == old(self).state && final(self).factory == old(self).factory
            },
            (cmd.token.0 != ALL && cmd.token.0 != SYSTEM) ==> (cmd.signal matches Signal::Message(
                m,
            ) ==> (old(self).has_conn(cmd.token.0 as int) ==> ({
                let c = old(self).conn_at(cmd.token.0 as int);
                (c.connection_id == cmd.connection_id && !(c.state is AwaitingClose || c.state
                    is FinishedClose) && !c.send_overflows(m.spec_len())) ==> (final(self).has_conn(cmd.token.0 as int) && final(self).conn_at(
                    cmd.token.0 as int,
                ).out_buffer.unread() == c.out_buffer.unread() + m.spec_data())
            }))),
            (cmd.token.0 != ALL && cmd.token.0 != SYSTEM) ==> (cmd.signal matches Signal::Close(
                code,
                reason,
            ) ==> (old(self).has_conn(cmd.token.0 as int) ==> ({
                let c = old(self).conn_at(cmd.token.0 as int);
                (c.connection_id == cmd.connection_id && !(c.state is Connecting)) ==> (final(self).has_conn(cmd.token.0 as int) && final(self).conn_at(cmd.token.0 as int).state
                    == close_next(c.state))
            }))),
            cmd.token.0 == ALL ==> (cmd.signal matches Signal::Message(m) ==> {
                &&& f is ScheduleAll || f is Panic
                &&& forall|j: int|
                    0 <= j < old(self).connections@.len() ==> ((#[trigger] old(
                        self,
                    ).connections@[j]) is Some <==> final(self).connections@[j] is Some)
                &&& forall|j: int|
                    0 <= j < old(self).connections@.len() ==> (#[trigger] old(
                        self,
                    ).connections@[j] matches Some(c) ==> (final(self).connections@[j]
                        matches Some(c2) && c2.token == c.token && c2.connection_id
                        == c.connection_id))
                &&& forall|j: int|
                    0 <= j < old(self).connections@.len() ==> (#[trigger] old(
                        self,
                    ).connections@[j] matches Some(c) ==> ((!(c.state is AwaitingClose || c.state
                        is FinishedClose) && !c.send_overflows(m.spec_len())) ==> (final(self).connections@[j] matches Some(c2) && c2.out_buffer.unread()
                        == c.out_buffer.unread() + m.spec_data())))
            }),
            cmd.token.0 == ALL ==> (cmd.signal matches Signal::Close(code, reason) ==> forall|
                j: int,
            |
                0 <= j < old(self).connections@.len() ==> (#[trigger] old(self).connections@[j]
                    matches Some(c) ==> (final(self).connections@[j] matches Some(c2) && c2.state
                    == (if c.state is Connecting {
                    c.state
                } else {
                    close_next(c.state)
                })))),
            cmd.token.0 != SYSTEM ==> (cmd.signal matches Signal::Connect(url) ==> ((f
                matches Followup::Dial(u, origin) && u == url && origin == (
                if cmd.token.0 == ALL {
                    Option::<Token>::None
                } else {
                    Some(cmd.token)
                })) && final(self).connections@ == old(self).connections@ && final(self).timer
                == old(self).timer && final(self).state == old(self).state && final(self).factory
                == old(self).factory)),
            cmd.token.0 != SYSTEM && cmd.signal is Shutdown ==> final(self).state is Inactive,
            cmd.token.0 != SYSTEM ==> (cmd.signal matches Signal::Cancel(h) ==> (forall|j: int|
                0 <= j < final(self).timer.entries@.len() ==> #[trigger] final(self)
                    .timer.entries@[j].handle != h.0) && final(self).connections@ == old(
                self,
            ).connections@),
            cmd.token.0 != SYSTEM ==> (cmd.signal matches Signal::Timeout { delay, token: ev }
                ==> ((old(self).timer.entries@.len() < old(self).timer.capacity && old(
                self,
            ).timer.next_handle != u64::MAX) ==> final(self).timer.entries@ == old(
                self,
            ).timer.entries@.push(
                TimerEntry {
                    handle: old(self).timer.next_handle,
                    deadline: deadline_of(now, delay),
                    payload: Timeout { connection: cmd.token, event: ev },
                },
            ))),
    {
        let target = cmd.token;
        if target.0 == SYSTEM {
            return Followup::Done;
        }
        if target.0 == ALL {
            match cmd.signal {
                Signal::Message(msg) => {
                    match self.broadcast_message(msg) {
                        Some(panic_msg) => Followup::Panic(panic_msg),
                        None => Followup::ScheduleAll,
                    }
                },
                Signal::Close(code, reason) => {
                    self.broadcast_close(code, reason.as_str());
                    Followup::ScheduleAll
                },
                Signal::Connect(url) => Followup::Dial(url, None),
                Signal::Shutdown => {
                    self.shutdown();
                    if self.settings.panic_on_shutdown {
                        Followup::Panic(String::from_str("Panicking on shutdown as per setting."))
                    } else {
                        Followup::Done
                    }
                },
                Signal::Timeout { delay, token: event } => {
                    let deadline = if delay > u64::MAX - now {
                        u64::MAX
                    } else {
                        now + delay
                    };
                    match self.timer.schedule(deadline, Timeout { connection: target, event }) {
                        Ok(handle) => {
                            match self.broadcast_new_timeout(event, handle) {
                                Some(panic_msg) => Followup::Panic(panic_msg),
                                None => Followup::Done,
                            }
                        },
                        Err(e) => {
                            if self.settings.panic_on_timeout {
                                Followup::Panic(e.message())
                            } else {
                                Followup::Done
                            }
                        },
                    }
                },
                Signal::Cancel(timeout) => {
                    self.timer.cancel(timeout);
                    Followup::Done
                },
            }
        } else {
            match cmd.signal {
                Signal::Message(msg) => {
                    if target.0 >= self.connections.len() {
                        return Followup::Done;
                    }
                    let outcome: Option<Error> = {
                        let slot = &mut self.connections[target.0];
                        match slot.as_mut() {
                            None => None,
                            Some(conn) => {
                                if conn.connection_id() == cmd.connection_id {
                                    match conn.send_message(msg) {
                                        Ok(()) => None,
                                        Err(e) => Some(e),
                                    }
                                } else {
                                    None
                                }
                            },
                        }
                    };
                    match outcome {
                        None => {},
                        Some(e) => {
                            match self.error_at(target, e) {
                                Followup::Panic(panic_msg) => {
                                    return Followup::Panic(panic_msg);
                                },
                                _ => {},
                            }
                        },
                    }
                    if self.connections[target.0].is_some() {
                        Followup::Schedule(target)
                    } else {
                        Followup::Done
                    }
                },
                Signal::Close(code, reason) => {
                    if target.0 >= self.connections.len() {
                        return Followup::Done;
                    }
                    {
                        let slot = &mut self.connections[target.0];
                        match slot.as_mut() {
                            None => {},
                            Some(conn) => {
                                if conn.connection_id() == cmd.connection_id
                                    && !conn.state.is_connecting() {
                                    let _ = conn.send_close(code, reason.as_str());
                                }
                            },
                        }
                    }
                    if self.connections[target.0].is_some() {
                        Followup::Schedule(target)
                    } else {
                        Followup::Done
                    }
                },
                Signal::Connect(url) => Followup::Dial(url, Some(target)),
                Signal::Shutdown => {
                    self.shutdown();
                    if self.settings.panic_on_shutdown {
                        Followup::Panic(String::from_str("Panicking on shutdown as per setting."))
                    } else {
                        Followup::Done
                    }
                },
                Signal::Timeout { delay, token: event } => {
                    let deadline = if delay > u64::MAX - now {
                        u64::MAX
                    } else {
                        now + delay
                    };
                    match self.timer.schedule(deadline, Timeout { connection: target, event }) {
                        Ok(handle) => {
                            if target.0 >= self.connections.len() {
                                return Followup::Done;
                            }
                            let outcome: Option<Error> = {
                                let slot = &mut self.connections[target.0];
                                match slot.as_mut() {
                                    None => None,
                                    Some(conn) => {
                                        match conn.new_timeout(event, handle) {
                                            Ok(()) => None,
                                            Err(e) => Some(e),
                                        }
                                    },
                                }
                            };
                            match outcome {
                                None => Followup::Done,
                                Some(e) => self.error_at(target, e),
                            }
                        },
                        Err(e) => self.error_at(target, e),
                    }
                },
                Signal::Cancel(timeout) => {
                    self.timer.cancel(timeout);
                    Followup::Done
                },
            }
        }
    }
}

} // verus!
