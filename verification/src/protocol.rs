//! Frame opcodes and close codes, numbered as RFC 6455 numbers them.

use vstd::prelude::*;

verus! {

/// Operation codes carried by frames.
#[derive(Debug, Eq, PartialEq, Structural, Clone, Copy)]
pub enum OpCode {
    /// A continuation frame of a fragmented message.
    Continue,
    /// A text data frame.
    Text,
    /// A binary data frame.
    Binary,
    /// A close control frame.
    Close,
    /// A ping control frame.
    Ping,
    /// A pong control frame.
    Pong,
    /// An invalid opcode was received.
    Bad,
}

/// The byte each opcode is written as on the wire.  `Bad` has no number of
/// its own and maps to the close opcode so a broken stream tears down fast.
pub open spec fn opcode_to_byte(c: OpCode) -> u8 {
    match c {
        OpCode::Continue => 0,
        OpCode::Text => 1,
        OpCode::Binary => 2,
        OpCode::Close => 8,
        OpCode::Ping => 9,
        OpCode::Pong => 10,
        OpCode::Bad => 8,
    }
}

/// The opcode a wire byte denotes; anything unassigned is `Bad`.
pub open spec fn byte_to_opcode(byte: u8) -> OpCode {
    match byte {
        0u8 => OpCode::Continue,
        1u8 => OpCode::Text,
        2u8 => OpCode::Binary,
        8u8 => OpCode::Close,
        9u8 => OpCode::Ping,
        10u8 => OpCode::Pong,
        _ => OpCode::Bad,
    }
}

impl OpCode {
    /// Whether the opcode indicates a control frame.
    pub fn is_control(&self) -> (r: bool)
        ensures
            r <==> !(*self is Text || *self is Binary || *self is Continue),
    {
        match *self {
            OpCode::Text | OpCode::Binary | OpCode::Continue => false,
            _ => true,
        }
    }
}

impl From<OpCode> for u8 {
    /// The wire byte of the opcode, `byte_to_opcode` in reverse on the
    /// assigned numbers.
    fn from(c: OpCode) -> (byte: u8) {
        match c {
            OpCode::Continue => 0,
            OpCode::Text => 1,
            OpCode::Binary => 2,
            OpCode::Close => 8,
            OpCode::Ping => 9,
            OpCode::Pong => 10,
            OpCode::Bad => 8,
        }
    }
}

impl vstd::std_specs::convert::FromSpecImpl<OpCode> for u8 {
    open spec fn obeys_from_spec() -> bool {
        true
    }

    open spec fn from_spec(c: OpCode) -> u8 {
        opcode_to_byte(c)
    }
}

impl From<u8> for OpCode {
    /// The opcode denoted by a wire byte.
    fn from(byte: u8) -> (c: OpCode) {
        match byte {
            0 => OpCode::Continue,
            1 => OpCode::Text,
            2 => OpCode::Binary,
            8 => OpCode::Close,
            9 => OpCode::Ping,
            10 => OpCode::Pong,
            _ => OpCode::Bad,
        }
    }
}

impl vstd::std_specs::convert::FromSpecImpl<u8> for OpCode {
    open spec fn obeys_from_spec() -> bool {
        true
    }

    open spec fn from_spec(byte: u8) -> OpCode {
        byte_to_opcode(byte)
    }
}

/// Round trip on the named opcodes: writing an opcode as its wire byte and
/// reading that byte back yields the same opcode.  `Bad` is the one opcode
/// without a number of its own and is left out.
pub proof fn lemma_opcode_round_trip(c: OpCode)
    requires
        !(c is Bad),
    ensures
        byte_to_opcode(opcode_to_byte(c)) == c,
{
}

/// Status codes carried by close frames.
#[derive(Debug, Eq, PartialEq, Structural, Clone, Copy)]
pub enum CloseCode {
    /// Normal closure.
    Normal,
    /// The endpoint is going away.
    Away,
    /// A protocol error.
    Protocol,
    /// A kind of data the endpoint cannot accept.
    Unsupported,
    /// No status code was present.
    Status,
    /// The connection was dropped abnormally.
    Abnormal,
    /// Data inconsistent with its declared type.
    Invalid,
    /// A message that violates the endpoint's policy.
    Policy,
    /// A message too big to process.
    Size,
    /// A required extension was not negotiated.
    Extension,
    /// An unexpected condition on the server.
    Error,
    /// The server is restarting.
    Restart,
    /// The client should retry later.
    Again,
    /// Reserved: a TLS handshake failure.
    Tls,
    /// Reserved: the empty code.
    Empty,
    /// Any other numeric code.
    Other(u16),
}

/// The number each close code is written as on the wire.
pub open spec fn closecode_to_number(c: CloseCode) -> u16 {
    match c {
        CloseCode::Normal => 1000,
        CloseCode::Away => 1001,
        CloseCode::Protocol => 1002,
        CloseCode::Unsupported => 1003,
        CloseCode::Status => 1005,
        CloseCode::Abnormal => 1006,
        CloseCode::Invalid => 1007,
        CloseCode::Policy => 1008,
        CloseCode::Size => 1009,
        CloseCode::Extension => 1010,
        CloseCode::Error => 1011,
        CloseCode::Restart => 1012,
        CloseCode::Again => 1013,
        CloseCode::Tls => 1015,
        CloseCode::Empty => 0,
        CloseCode::Other(code) => code,
    }
}

/// The close code a wire number denotes; unassigned numbers stay `Other`.
pub open spec fn number_to_closecode(code: u16) -> CloseCode {
    match code {
        1000u16 => CloseCode::Normal,
        1001u16 => CloseCode::Away,
        1002u16 => CloseCode::Protocol,
        1003u16 => CloseCode::Unsupported,
        1005u16 => CloseCode::Status,
        1006u16 => CloseCode::Abnormal,
        1007u16 => CloseCode::Invalid,
        1008u16 => CloseCode::Policy,
        1009u16 => CloseCode::Size,
        1010u16 => CloseCode::Extension,
        1011u16 => CloseCode::Error,
        1012u16 => CloseCode::Restart,
        1013u16 => CloseCode::Again,
        1015u16 => CloseCode::Tls,
        0u16 => CloseCode::Empty,
        _ => CloseCode::Other(code),
    }
}

impl From<CloseCode> for u16 {
    /// The wire number of the close code.
    fn from(c: CloseCode) -> (code: u16) {
        match c {
            CloseCode::Normal => 1000,
            CloseCode::Away => 1001,
            CloseCode::Protocol => 1002,
            CloseCode::Unsupported => 1003,
            CloseCode::Status => 1005,
            CloseCode::Abnormal => 1006,
            CloseCode::Invalid => 1007,
            CloseCode::Policy => 1008,
            CloseCode::Size => 1009,
            CloseCode::Extension => 1010,
            CloseCode::Error => 1011,
            CloseCode::Restart => 1012,
            CloseCode::Again => 1013,
            CloseCode::Tls => 1015,
            CloseCode::Empty => 0,
            CloseCode::Other(code) => code,
        }
    }
}

impl vstd::std_specs::convert::FromSpecImpl<CloseCode> for u16 {
    open spec fn obeys_from_spec() -> bool {
        true
    }

    open spec fn from_spec(c: CloseCode) -> u16 {
        closecode_to_number(c)
    }
}

impl From<u16> for CloseCode {
    /// The close code denoted by a wire number.
    fn from(code: u16) -> (c: CloseCode) {
        match code {
            1000 => CloseCode::Normal,
            1001 => CloseCode::Away,
            1002 => CloseCode::Protocol,
            1003 => CloseCode::Unsupported,
            1005 => CloseCode::Status,
            1006 => CloseCode::Abnormal,
            1007 => CloseCode::Invalid,
            1008 => CloseCode::Policy,
            1009 => CloseCode::Size,
            1010 => CloseCode::Extension,
            1011 => CloseCode::Error,
            1012 => CloseCode::Restart,
            1013 => CloseCode::Again,
            1015 => CloseCode::Tls,
            0 => CloseCode::Empty,
            _ => CloseCode::Other(code),
        }
    }
}

impl vstd::std_specs::convert::FromSpecImpl<u16> for CloseCode {
    open spec fn obeys_from_spec() -> bool {
        true
    }

    open spec fn from_spec(code: u16) -> CloseCode {
        number_to_closecode(code)
    }
}

/// Round trip on the named close codes: writing a close code as its wire
/// number and reading that number back yields the same close code.  `Other`
/// carries an arbitrary number and is left out.
pub proof fn lemma_closecode_round_trip(c: CloseCode)
    requires
        !(c matches CloseCode::Other(_)),
    ensures
        number_to_closecode(closecode_to_number(c)) == c,
{
}

} // verus!
