//! A single-threaded, event-driven TCP messaging engine.
//!
//! The crate holds the verified core of the engine: the per-connection state
//! machine with its read/write buffers, the command envelopes that handlers
//! enqueue for the reactor, the reactor's slab of connections, its timer, and
//! the dispatch rules that tie them together.  Socket polling and the actual
//! byte transfer live outside the library and drive it through plain values.

pub mod communication;
pub mod connection;
pub mod factory;
pub mod handler;
pub mod io;
pub mod message;
pub mod protocol;
pub mod result;
pub mod timer;
pub mod util;

use vstd::prelude::*;

verus! {

/// Runtime configuration captured once per engine.
#[derive(Debug, Clone, Copy)]
pub struct Settings {
    /// Capacity of the connection slab.
    pub max_connections: usize,
    /// Command-channel depth multiplier: the queue holds
    /// `max_connections * queue_size` commands.
    pub queue_size: usize,
    /// Panic when a new connection cannot be established.
    pub panic_on_new_connection: bool,
    /// Panic once a shutdown request has been carried out.
    pub panic_on_shutdown: bool,
    /// Reserved for a future framing layer.
    pub fragments_capacity: usize,
    /// Reserved for a future framing layer.
    pub fragments_grow: bool,
    /// Reserved for a future framing layer.
    pub fragment_size: usize,
    /// Initial capacity of each connection's read buffer.
    pub in_buffer_capacity: usize,
    /// Whether a full read buffer may reserve more room.
    pub in_buffer_grow: bool,
    /// Initial capacity of each connection's write buffer.
    pub out_buffer_capacity: usize,
    /// Whether a full write buffer may reserve more room.
    pub out_buffer_grow: bool,
    /// Panic on internal errors.
    pub panic_on_internal: bool,
    /// Panic on capacity errors.
    pub panic_on_capacity: bool,
    /// Panic on protocol errors.
    pub panic_on_protocol: bool,
    /// Panic on encoding errors.
    pub panic_on_encoding: bool,
    /// Panic on command-queue errors.
    pub panic_on_queue: bool,
    /// Panic on I/O errors.
    pub panic_on_io: bool,
    /// Panic on timer errors.
    pub panic_on_timeout: bool,
    /// Treat an interrupted poll as a shutdown signal.
    pub shutdown_on_interrupt: bool,
    /// Apply TCP_NODELAY to every socket.
    pub tcp_nodelay: bool,
}

impl Settings {
    /// The stock configuration: 100 connections, growable 2048-byte buffers,
    /// and a panic only on internal errors.
    pub open spec fn spec_default() -> Settings {
        Settings {
            max_connections: 100,
            queue_size: 5,
            panic_on_new_connection: false,
            panic_on_shutdown: false,
            fragments_capacity: 10,
            fragments_grow: true,
            fragment_size: 65535,
            in_buffer_capacity: 2048,
            in_buffer_grow: true,
            out_buffer_capacity: 2048,
            out_buffer_grow: true,
            panic_on_internal: true,
            panic_on_capacity: false,
            panic_on_protocol: false,
            panic_on_encoding: false,
            panic_on_queue: false,
            panic_on_io: false,
            panic_on_timeout: false,
            shutdown_on_interrupt: true,
            tcp_nodelay: false,
        }
    }
}

impl Default for Settings {
    /// The stock configuration, as `Settings::spec_default` states it.
    fn default() -> (s: Settings)
        ensures
            s == Settings::spec_default(),
    {
        Settings {
            max_connections: 100,
            queue_size: 5,
            panic_on_new_connection: false,
            panic_on_shutdown: false,
            fragments_capacity: 10,
            fragments_grow: true,
            fragment_size: 65535,
            in_buffer_capacity: 2048,
            in_buffer_grow: true,
            out_buffer_capacity: 2048,
            out_buffer_grow: true,
            panic_on_internal: true,
            panic_on_capacity: false,
            panic_on_protocol: false,
            panic_on_encoding: false,
            panic_on_queue: false,
            panic_on_io: false,
            panic_on_timeout: false,
            shutdown_on_interrupt: true,
            tcp_nodelay: false,
        }
    }
}

/// Explicit construction of an engine with custom settings.
#[derive(Debug, Clone, Copy)]
pub struct Builder {
    /// The settings the built engine will capture.
    pub settings: Settings,
}

impl Builder {
    /// A builder that starts from the default settings.
    pub fn new() -> (b: Builder)
        ensures
            b.settings == Settings::spec_default(),
    {
        Builder { settings: Settings::default() }
    }

    /// Replace the settings wholesale.
    pub fn with_settings(&mut self, settings: Settings)
        ensures
            final(self).settings == settings,
    {
        self.settings = settings;
    }

    /// The settings the builder currently holds.
    pub fn settings(&self) -> (s: Settings)
        ensures
            s == self.settings,
    {
        self.settings
    }
}

} // verus!
