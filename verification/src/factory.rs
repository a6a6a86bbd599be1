//! The producer of handlers, one per connection.

use vstd::prelude::*;

use crate::communication::Sender;
use crate::handler::Handler;

verus! {

/// Creates a handler for each connection the engine makes, and takes each
/// back when its connection dies.  The factory outlives all connections.
pub trait Factory {
    /// The handler type driven for each connection.
    type Handler: Handler;

    /// Called when a TCP connection is made.
    fn connection_made(&mut self, out: Sender) -> Self::Handler;

    /// Called when the engine is shutting down.
    fn on_shutdown(&mut self) {
    }

    /// Called when an outbound connection is made; defaults to
    /// `connection_made`.
    fn client_connected(&mut self, xnet: Sender) -> Self::Handler {
        self.connection_made(xnet)
    }

    /// Called when an inbound connection is accepted; defaults to
    /// `connection_made`.
    fn server_connected(&mut self, xnet: Sender) -> Self::Handler {
        self.connection_made(xnet)
    }

    /// Called with the handler of a connection that was removed.
    fn connection_lost(&mut self, _handler: Self::Handler) {
    }
}

/// Relies on the embedder's closure, which no contract constrains: the call
/// merely forwards the handle to it.
#[verifier::external_body]
fn call_factory_fn<H, F: FnMut(Sender) -> H>(f: &mut F, out: Sender) -> H {
    f(out)
}

impl<F, H> Factory for F where H: Handler, F: FnMut(Sender) -> H {
    type Handler = H;

    /// A plain function from a `Sender` to a handler is a factory.
    fn connection_made(&mut self, out: Sender) -> H {
        call_factory_fn(self, out)
    }
}

} // verus!
