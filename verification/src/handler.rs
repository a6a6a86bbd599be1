//! The callback contract the engine drives user code through.

use vstd::prelude::*;

use crate::message::Message;
use crate::protocol::CloseCode;
use crate::result::{Error, Kind};
use crate::util::{Timeout, Token};

verus! {

/// One connection's callbacks.  The reactor invokes these synchronously;
/// they must not block.  Nothing is assumed of what an implementation does,
/// so the engine's own contracts hold whatever a handler returns.
pub trait Handler {
    /// Called when a request to shut down all connections has been received.
    fn on_shutdown(&mut self) {
    }

    /// Called when the connection has been opened.
    fn on_open(&mut self) -> Result<(), Error> {
        Ok(())
    }

    /// Called on incoming messages.
    fn on_message(&mut self, msg: Message) -> Result<(), Error>;

    /// Called when the connection is closing.
    fn on_close(&mut self, _code: CloseCode, _reason: &str) {
    }

    /// Called when an error occurs on the connection.  By default an I/O
    /// error with OS error 104, a connection reset by the peer, is swallowed;
    /// everything else is ignored here and handled by the engine's own
    /// error policy.
    fn on_error(&mut self, err: Error) {
        if let Kind::Io(Some(errno)) = err.kind {
            if errno == 104 {
                return ;
            }
        }
    }

    /// Called when a scheduled timeout with the given event token fires.
    fn on_timeout(&mut self, _event: Token) -> Result<(), Error> {
        Ok(())
    }

    /// Called when a timeout has been scheduled, with its handle, so user
    /// code may record it for a later `cancel`.
    fn on_new_timeout(&mut self, _event: Token, _timeout: Timeout) -> Result<(), Error> {
        Ok(())
    }
}

/// Relies on the embedder's closure, which no contract constrains: the call
/// merely forwards the message to it.
#[verifier::external_body]
fn call_message_fn<M: FnMut(Message) -> Result<(), Error>>(f: &mut M, msg: Message) -> Result<
    (),
    Error,
> {
    f(msg)
}

impl<M> Handler for M where M: FnMut(Message) -> Result<(), Error> {
    /// A plain function of one message argument is a handler with only
    /// `on_message` overridden.
    fn on_message(&mut self, msg: Message) -> Result<(), Error> {
        call_message_fn(self, msg)
    }
}

} // verus!
