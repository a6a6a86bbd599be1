//! The closed taxonomy of failures the engine reports.

use vstd::prelude::*;
use vstd::string::*;

verus! {

/// The kind of an error.  Outside failures are carried as the plain values
/// the engine's rules read: an I/O failure keeps its raw OS error number.
#[derive(Debug, Clone, Copy, PartialEq, Eq)]
pub enum Kind {
    /// A logic failure inside the engine.
    Internal,
    /// A buffer, the connection slab, or the timer is full.
    Capacity,
    /// The peer violated the protocol.
    Protocol,
    /// Bytes that should be text are not valid UTF-8.
    Encoding,
    /// An operating-system I/O failure, with its raw error number when the
    /// system gave one.
    Io(Option<i32>),
    /// An HTTP request or response could not be parsed.
    Http,
    /// A command could not be enqueued on the reactor's channel.
    Queue,
    /// A timeout could not be scheduled.
    Timer,
    /// A failure raised by user code.
    Custom,
}

/// The description each kind carries.
pub open spec fn kind_description(kind: Kind) -> Seq<char> {
    match kind {
        Kind::Internal => "Internal Application Error"@,
        Kind::Capacity => "Socket at Capacity"@,
        Kind::Protocol => "Socket Protocol Error"@,
        Kind::Encoding => "Invalid Encoding"@,
        Kind::Io(_) => "IO Error"@,
        Kind::Http => "Unable to parse HTTP"@,
        Kind::Queue => "Unable to send signal on event loop"@,
        Kind::Timer => "Unable to schedule timeout on event loop"@,
        Kind::Custom => "Custom Application Error"@,
    }
}

/// An error: its kind and any precise details.
#[derive(Debug)]
pub struct Error {
    /// The kind of failure.
    pub kind: Kind,
    /// Free-form details of this particular failure.
    pub details: String,
}

impl Error {
    /// A fresh error of the given kind.
    pub fn new(kind: Kind, details: &str) -> (e: Error)
        ensures
            e.kind == kind,
            e.details@ == details@,
    {
        Error { kind, details: details.to_owned() }
    }

    /// The description of the error's kind.
    pub fn description(&self) -> (d: &'static str)
        ensures
            d@ == kind_description(self.kind),
    {
        match self.kind {
            Kind::Internal => "Internal Application Error",
            Kind::Capacity => "Socket at Capacity",
            Kind::Protocol => "Socket Protocol Error",
            Kind::Encoding => "Invalid Encoding",
            Kind::Io(_) => "IO Error",
            Kind::Http => "Unable to parse HTTP",
            Kind::Queue => "Unable to send signal on event loop",
            Kind::Timer => "Unable to schedule timeout on event loop",
            Kind::Custom => "Custom Application Error",
        }
    }

    /// What the error reads as: the kind's description, and the details when
    /// there are any.
    pub fn message(&self) -> (m: String)
        ensures
            self.details@.len() > 0 ==> m@ == kind_description(self.kind) + ": "@
                + self.details@,
            self.details@.len() == 0 ==> m@ == kind_description(self.kind),
    {
        let mut m = self.description().to_owned();
        if !self.details.as_str().is_empty() {
            m.append(": ");
            m.append(self.details.as_str());
        }
        m
    }
}

} // verus!
