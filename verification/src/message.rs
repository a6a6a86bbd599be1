//! The message payload: a tagged union of UTF-8 text and opaque bytes.

use vstd::prelude::*;
use vstd::std_specs::cmp::PartialEqSpec;
use vstd::string::*;
use vstd::utf8::*;

use crate::protocol::OpCode;
use crate::result::{Error, Kind};

verus! {

/// An application-level message.
#[derive(Debug)]
pub enum Message {
    /// A UTF-8 text message.
    Text(String),
    /// A binary message of opaque bytes.
    Binary(Vec<u8>),
}

impl Clone for Message {
    /// A copy with the same tag and an equal payload.
    fn clone(&self) -> (r: Message)
        ensures
            self.eq_spec(&r),
            r.spec_data() == self.spec_data(),
            r is Text <==> *self is Text,
    {
        match *self {
            Message::Text(ref s) => Message::Text(s.clone()),
            Message::Binary(ref d) => {
                let r = Message::Binary(d.clone());
                proof {
                    assert(d@ =~= r->Binary_0@);
                }
                r
            },
        }
    }
}

impl PartialEq for Message {
    /// Two messages are equal when they have the same tag and payload.
    fn eq(&self, other: &Message) -> (r: bool) {
        match (self, other) {
            (Message::Text(a), Message::Text(b)) => *a == *b,
            (Message::Binary(a), Message::Binary(b)) => {
                let r = *a == *b;
                proof {
                    broadcast use vstd::std_specs::vec::lemma_vec_obeys_eq_spec;

                    if r {
                        assert(a@ =~= b@);
                    }
                }
                r
            },
            _ => false,
        }
    }
}

impl vstd::std_specs::cmp::PartialEqSpecImpl for Message {
    open spec fn obeys_eq_spec() -> bool {
        true
    }

    open spec fn eq_spec(&self, other: &Message) -> bool {
        match (self, other) {
            (Message::Text(a), Message::Text(b)) => a@ == b@,
            (Message::Binary(a), Message::Binary(b)) => a@ == b@,
            _ => false,
        }
    }
}

/// Relies on alloc's `String::from_utf8`: it succeeds exactly on valid
/// UTF-8 and decodes the bytes to their characters.
#[verifier::external_body]
pub(crate) fn string_from_utf8(bytes: Vec<u8>) -> (r: Option<String>)
    ensures
        r is Some <==> valid_utf8(bytes@),
        r matches Some(s) ==> s@ == decode_utf8(bytes@),
{
    String::from_utf8(bytes).ok()
}

/// Relies on core's `str::from_utf8`: it succeeds exactly on valid UTF-8
/// and views the bytes as their characters.
#[verifier::external_body]
pub(crate) fn str_from_utf8(bytes: &[u8]) -> (r: Option<&str>)
    ensures
        r is Some <==> valid_utf8(bytes@),
        r matches Some(s) ==> s@ == decode_utf8(bytes@),
{
    core::str::from_utf8(bytes).ok()
}

/// The decimal digit `d` reads as, for `d < 10`.
pub open spec fn digit_char(d: nat) -> char {
    if d == 0 {
        '0'
    } else if d == 1 {
        '1'
    } else if d == 2 {
        '2'
    } else if d == 3 {
        '3'
    } else if d == 4 {
        '4'
    } else if d == 5 {
        '5'
    } else if d == 6 {
        '6'
    } else if d == 7 {
        '7'
    } else if d == 8 {
        '8'
    } else {
        '9'
    }
}

/// The decimal rendering of a number, most significant digit first.
pub open spec fn dec_str(n: nat) -> Seq<char>
    decreases n,
{
    if n < 10 {
        seq![digit_char(n)]
    } else {
        dec_str(n / 10).push(digit_char(n % 10))
    }
}

/// The one-character string of a decimal digit.
fn digit_str(d: u8) -> (s: &'static str)
    requires
        d < 10,
    ensures
        s@ == seq![digit_char(d as nat)],
{
    proof {
        reveal_strlit("0");
        reveal_strlit("1");
        reveal_strlit("2");
        reveal_strlit("3");
        reveal_strlit("4");
        reveal_strlit("5");
        reveal_strlit("6");
        reveal_strlit("7");
        reveal_strlit("8");
        reveal_strlit("9");
    }
    let r: &'static str = match d {
        0 => "0",
        1 => "1",
        2 => "2",
        3 => "3",
        4 => "4",
        5 => "5",
        6 => "6",
        7 => "7",
        8 => "8",
        _ => "9",
    };
    proof {
        assert(r@ =~= seq![digit_char(d as nat)]);
    }
    r
}

/// Render a number as its decimal digits, most significant first.
pub(crate) fn usize_to_string(n: usize) -> (s: String)
    ensures
        s@ == dec_str(n as nat),
    decreases n,
{
    let d = (n % 10) as u8;
    if n < 10 {
        digit_str(d).to_owned()
    } else {
        let mut s = usize_to_string(n / 10);
        s.append(digit_str(d));
        proof {
            assert(s@ =~= dec_str(n as nat));
        }
        s
    }
}

impl Message {
    /// The payload as wire bytes: text is its UTF-8 encoding, binary is
    /// itself.
    pub open spec fn spec_data(self) -> Seq<u8> {
        match self {
            Message::Text(s) => encode_utf8(s@),
            Message::Binary(d) => d@,
        }
    }

    /// The byte length of the payload.
    pub open spec fn spec_len(self) -> nat {
        self.spec_data().len()
    }

    /// A new text message.
    pub fn text(string: String) -> (m: Message)
        ensures
            m == Message::Text(string),
    {
        Message::Text(string)
    }

    /// A new binary message.
    pub fn binary(bin: Vec<u8>) -> (m: Message)
        ensures
            m == Message::Binary(bin),
    {
        Message::Binary(bin)
    }

    /// Whether the message is a text message.
    pub fn is_text(&self) -> (r: bool)
        ensures
            r <==> *self is Text,
    {
        match *self {
            Message::Text(_) => true,
            Message::Binary(_) => false,
        }
    }

    /// Whether the message is a binary message.
    pub fn is_binary(&self) -> (r: bool)
        ensures
            r <==> *self is Binary,
    {
        match *self {
            Message::Text(_) => false,
            Message::Binary(_) => true,
        }
    }

    /// The length of the message payload, in bytes.
    pub fn len(&self) -> (r: usize)
        ensures
            r == self.spec_len(),
    {
        match *self {
            Message::Text(ref string) => string.as_str().as_bytes().len(),
            Message::Binary(ref data) => data.len(),
        }
    }

    /// Whether the message has no content.
    pub fn is_empty(&self) -> (r: bool)
        ensures
            r <==> self.spec_len() == 0,
    {
        match *self {
            Message::Text(ref string) => string.as_str().as_bytes().len() == 0,
            Message::Binary(ref data) => data.len() == 0,
        }
    }

    /// The opcode the message travels under.
    pub fn opcode(&self) -> (c: OpCode)
        ensures
            *self is Text ==> c == OpCode::Text,
            *self is Binary ==> c == OpCode::Binary,
    {
        match *self {
            Message::Text(_) => OpCode::Text,
            Message::Binary(_) => OpCode::Binary,
        }
    }

    /// The payload bytes: text is encoded as UTF-8, binary handed over
    /// unchanged.
    pub fn into_data(self) -> (r: Vec<u8>)
        ensures
            r@ == self.spec_data(),
    {
        match self {
            Message::Text(string) => string.as_str().as_bytes_vec(),
            Message::Binary(data) => data,
        }
    }

    /// The payload as text.  A text message is handed over unchanged; a
    /// binary message is decoded, and rejected with an `Encoding` error
    /// exactly when its bytes are not valid UTF-8.
    pub fn into_text(self) -> (r: Result<String, Error>)
        ensures
            self matches Message::Text(s) ==> (r matches Ok(t) && t == s),
            self matches Message::Binary(d) ==> ((r is Ok) <==> valid_utf8(d@)),
            self matches Message::Binary(d) ==> (r matches Ok(t) ==> t@ == decode_utf8(
                d@,
            )),
            r matches Err(e) ==> e.kind == Kind::Encoding,
    {
        match self {
            Message::Text(string) => Ok(string),
            Message::Binary(data) => match string_from_utf8(data) {
                Some(string) => Ok(string),
                None => Err(Error::new(Kind::Encoding, "invalid utf-8 sequence")),
            },
        }
    }

    /// The payload as borrowed text, decoding binary data on the fly.  As
    /// with `into_text`, only bytes that are not valid UTF-8 are rejected.
    pub fn as_text(&self) -> (r: Result<&str, Error>)
        ensures
            *self matches Message::Text(s) ==> (r matches Ok(t) && t@ == s@),
            *self matches Message::Binary(d) ==> ((r is Ok) <==> valid_utf8(d@)),
            *self matches Message::Binary(d) ==> (r matches Ok(t) ==> t@ == decode_utf8(
                d@,
            )),
            r matches Err(e) ==> e.kind == Kind::Encoding,
    {
        match *self {
            Message::Text(ref string) => Ok(string.as_str()),
            Message::Binary(ref data) => match str_from_utf8(data.as_slice()) {
                Some(string) => Ok(string),
                None => Err(Error::new(Kind::Encoding, "invalid utf-8 sequence")),
            },
        }
    }

    /// What the message reads as: its text when it has any (binary data that
    /// decodes as UTF-8 included), else a placeholder with the byte length.
    pub fn display_string(&self) -> (m: String)
        ensures
            *self matches Message::Text(s) ==> m@ == s@,
            *self matches Message::Binary(d) ==> (valid_utf8(d@) ==> m@ == decode_utf8(d@)),
            *self matches Message::Binary(d) ==> (!valid_utf8(d@) ==> m@
                == "Binary Data<length="@ + dec_str(d@.len()) + ">"@),
    {
        match self.as_text() {
            Ok(string) => string.to_owned(),
            Err(_) => {
                let len = self.len();
                let mut m = "Binary Data<length=".to_owned();
                m.append(usize_to_string(len).as_str());
                m.append(">");
                m
            },
        }
    }
}

impl From<String> for Message {
    /// A string becomes a text message.
    fn from(string: String) -> (m: Message) {
        Message::text(string)
    }
}

impl vstd::std_specs::convert::FromSpecImpl<String> for Message {
    open spec fn obeys_from_spec() -> bool {
        true
    }

    open spec fn from_spec(string: String) -> Message {
        Message::Text(string)
    }
}

impl<'s> From<&'s str> for Message {
    /// Borrowed text becomes an owned text message.  `from_spec` cannot name
    /// the owned copy, so nothing is promised of the result here; callers
    /// that need a contract use `Message::text`.
    fn from(string: &'s str) -> (m: Message) {
        Message::text(string.to_owned())
    }
}

impl<'s> vstd::std_specs::convert::FromSpecImpl<&'s str> for Message {
    open spec fn obeys_from_spec() -> bool {
        false
    }

    open spec fn from_spec(string: &'s str) -> Message {
        arbitrary()
    }
}

impl<'b> From<&'b [u8]> for Message {
    /// Borrowed bytes become an owned binary message.  As with borrowed
    /// text, callers that need a contract use `Message::binary`.
    fn from(data: &'b [u8]) -> (m: Message) {
        Message::binary(vstd::slice::slice_to_vec(data))
    }
}

impl<'b> vstd::std_specs::convert::FromSpecImpl<&'b [u8]> for Message {
    open spec fn obeys_from_spec() -> bool {
        false
    }

    open spec fn from_spec(data: &'b [u8]) -> Message {
        arbitrary()
    }
}

impl From<Vec<u8>> for Message {
    /// A byte vector becomes a binary message.
    fn from(data: Vec<u8>) -> (m: Message) {
        Message::binary(data)
    }
}

impl vstd::std_specs::convert::FromSpecImpl<Vec<u8>> for Message {
    open spec fn obeys_from_spec() -> bool {
        true
    }

    open spec fn from_spec(data: Vec<u8>) -> Message {
        Message::Binary(data)
    }
}

/// Bytes pass through a binary message unchanged: a message built from
/// `bytes` yields exactly `bytes` back as its payload data.
pub proof fn lemma_binary_data_round_trip(data: Vec<u8>)
    ensures
        Message::Binary(data).spec_data() == data@,
{
}

/// Text passes through a text message unchanged: a message built from
/// `string` yields exactly `string` back from `into_text`, whose contract
/// returns the held string for every text message.
pub proof fn lemma_text_round_trip(string: String)
    ensures
        Message::Text(string) matches Message::Text(s) && s == string,
{
}

} // verus!
