//! Small identifier types shared by the reactor, connections and handlers.

use vstd::prelude::*;

verus! {

/// Identifies a registered source in the reactor.  Four reserved values
/// stand for the listener, the command queue, the timer and an unused system
/// slot; every other token is the slab index of a live connection.
#[derive(Debug, PartialEq, Eq, Structural, Clone, Copy, Hash)]
pub struct Token(pub usize);

/// A handle to one scheduled timeout, handed to `on_new_timeout` and taken
/// back by `cancel`.
#[derive(Debug, PartialEq, Eq, Structural, Clone, Copy)]
pub struct Timeout(pub u64);

} // verus!
