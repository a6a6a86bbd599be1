//! The typed request envelope handlers enqueue, and the cloneable handle
//! they enqueue it through.

use vstd::prelude::*;

use crate::message::Message;
use crate::protocol::CloseCode;
use crate::result::{Error, Kind};
use crate::util::{Timeout, Token};

verus! {

/// What a command asks the reactor to do.
#[derive(Debug, Clone)]
pub enum Signal {
    /// Deliver a message to the target connection, or to all of them.
    Message(Message),
    /// Drive the close handshake with this code and reason.
    Close(CloseCode, String),
    /// Open a new outbound connection to the URL.
    Connect(String),
    /// Shut the whole engine down.
    Shutdown,
    /// Schedule a timeout that hands `token` back after `delay` ms.
    Timeout {
        /// Milliseconds until the timeout fires.
        delay: u64,
        /// The token handed back to `on_timeout`.
        token: Token,
    },
    /// Remove a scheduled timeout.
    Cancel(Timeout),
}

/// The envelope on the reactor's internal channel: a target, a generation
/// tag guarding against recycled slots, and the signal itself.
#[derive(Debug, Clone)]
pub struct Command {
    /// The token the command is addressed to.
    pub token: Token,
    /// What the command asks for.
    pub signal: Signal,
    /// The generation tag of the connection the sender spoke for.
    pub connection_id: u32,
}

impl Command {
    /// A fresh envelope.
    pub fn new(token: Token, signal: Signal, connection_id: u32) -> (c: Command)
        ensures
            c.token == token,
            c.signal == signal,
            c.connection_id == connection_id,
    {
        Command { token, signal, connection_id }
    }

    /// The token the command is addressed to.
    pub fn token(&self) -> (t: Token)
        ensures
            t == self.token,
    {
        self.token
    }

    /// The signal, surrendering the envelope.
    pub fn signal(self) -> (s: Signal)
        ensures
            s == self.signal,
    {
        self.signal
    }

    /// The generation tag the command carries.
    pub fn connection_id(&self) -> (id: u32)
        ensures
            id == self.connection_id,
    {
        self.connection_id
    }
}

#[verifier::external_type_specification]
#[verifier::external_body]
#[verifier::reject_recursive_types(T)]
pub struct ExSyncSender<T>(std::sync::mpsc::SyncSender<T>);

#[verifier::external_type_specification]
#[verifier::external_body]
#[verifier::reject_recursive_types(T)]
pub struct ExReceiver<T>(std::sync::mpsc::Receiver<T>);

/// Relies on std's `sync_channel`: a bounded FIFO channel whose send blocks
/// while the queue holds `bound` undelivered commands.
#[verifier::external_body]
pub(crate) fn command_channel(bound: usize) -> (std::sync::mpsc::SyncSender<Command>, std::sync::mpsc::Receiver<Command>) {
    std::sync::mpsc::sync_channel(bound)
}

/// Relies on `SyncSender::send`: it blocks while the queue is full and
/// fails only when the receiving end is gone, handing the command back.
#[verifier::external_body]
pub(crate) fn command_send(
    tx: &std::sync::mpsc::SyncSender<Command>,
    cmd: Command,
) -> (r: Result<(), Command>)
    ensures
        r matches Err(c) ==> c == cmd,
{
    match tx.send(cmd) {
        Ok(()) => Ok(()),
        Err(std::sync::mpsc::SendError(c)) => Err(c),
    }
}

/// Relies on `SyncSender::clone`: another handle to the same queue.
#[verifier::external_body]
pub(crate) fn command_sender_clone(
    tx: &std::sync::mpsc::SyncSender<Command>,
) -> std::sync::mpsc::SyncSender<Command> {
    tx.clone()
}

/// Relies on `Receiver::try_recv`: nonblocking; yields the next queued
/// command when one is waiting.
#[verifier::external_body]
pub(crate) fn command_try_recv(rx: &std::sync::mpsc::Receiver<Command>) -> Option<Command> {
    rx.try_recv().ok()
}

/// The handle user code issues commands through.  Every operation enqueues
/// exactly one `Command` on the reactor's bounded channel and reports a
/// queue error only when the reactor is gone.  Senders are cheap to clone,
/// may be held by any thread, and may outlive their connection: a stale
/// command is dropped at the reactor by its generation tag.
pub struct Sender {
    /// The token of the connection this handle speaks for.
    pub token: Token,
    /// The sending end of the reactor's command queue.
    pub channel: std::sync::mpsc::SyncSender<Command>,
    /// The generation tag of that connection.
    pub connection_id: u32,
}

impl Clone for Sender {
    /// Another handle to the same connection and queue.
    fn clone(&self) -> (r: Sender)
        ensures
            r.token == self.token,
            r.connection_id == self.connection_id,
    {
        Sender {
            token: self.token,
            channel: command_sender_clone(&self.channel),
            connection_id: self.connection_id,
        }
    }
}

impl Sender {
    /// A handle speaking for the given token and generation.
    pub fn new(
        token: Token,
        channel: std::sync::mpsc::SyncSender<Command>,
        connection_id: u32,
    ) -> (s: Sender)
        ensures
            s.token == token,
            s.connection_id == connection_id,
    {
        Sender { token, channel, connection_id }
    }

    /// The token this handle speaks for.
    pub fn token(&self) -> (t: Token)
        ensures
            t == self.token,
    {
        self.token
    }

    /// Enqueue one command carrying the given signal, addressed to `token`.
    fn enqueue(&self, token: Token, signal: Signal) -> (r: Result<(), Error>)
        ensures
            r matches Err(e) ==> e.kind == Kind::Queue,
    {
        match command_send(&self.channel, Command::new(token, signal, self.connection_id)) {
            Ok(()) => Ok(()),
            Err(_) => Err(Error::new(Kind::Queue, "Unable to send signal on event loop")),
        }
    }

    /// Ask the reactor to deliver a message to this handle's connection.
    pub fn send(&self, msg: Message) -> (r: Result<(), Error>)
        ensures
            r matches Err(e) ==> e.kind == Kind::Queue,
    {
        self.enqueue(self.token, Signal::Message(msg))
    }

    /// Ask the reactor to deliver a message to every connection.
    pub fn broadcast(&self, msg: Message) -> (r: Result<(), Error>)
        ensures
            r matches Err(e) ==> e.kind == Kind::Queue,
    {
        self.enqueue(Token(crate::io::ALL), Signal::Message(msg))
    }

    /// Ask the reactor to close this handle's connection.
    pub fn close(&self, code: CloseCode) -> (r: Result<(), Error>)
        ensures
            r matches Err(e) ==> e.kind == Kind::Queue,
    {
        self.enqueue(self.token, Signal::Close(code, String::new()))
    }

    /// Ask the reactor to close this handle's connection, with a reason.
    pub fn close_with_reason(&self, code: CloseCode, reason: String) -> (r: Result<(), Error>)
        ensures
            r matches Err(e) ==> e.kind == Kind::Queue,
    {
        self.enqueue(self.token, Signal::Close(code, reason))
    }

    /// Ask the reactor to open a new outbound connection.
    pub fn connect(&self, url: String) -> (r: Result<(), Error>)
        ensures
            r matches Err(e) ==> e.kind == Kind::Queue,
    {
        self.enqueue(self.token, Signal::Connect(url))
    }

    /// Ask the reactor to shut the whole engine down.
    pub fn shutdown(&self) -> (r: Result<(), Error>)
        ensures
            r matches Err(e) ==> e.kind == Kind::Queue,
    {
        self.enqueue(self.token, Signal::Shutdown)
    }

    /// Schedule `token` to be handed to the handler's `on_timeout` after
    /// `ms` milliseconds.
    pub fn timeout(&self, ms: u64, token: Token) -> (r: Result<(), Error>)
        ensures
            r matches Err(e) ==> e.kind == Kind::Queue,
    {
        self.enqueue(self.token, Signal::Timeout { delay: ms, token })
    }

    /// Remove a scheduled timeout before it fires.
    pub fn cancel(&self, timeout: Timeout) -> (r: Result<(), Error>)
        ensures
            r matches Err(e) ==> e.kind == Kind::Queue,
    {
        self.enqueue(self.token, Signal::Cancel(timeout))
    }
}

} // verus!
