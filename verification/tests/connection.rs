use xnet::connection::{Buffer, Connection, Ready, State};
use xnet::handler::Handler;
use xnet::message::Message;
use xnet::protocol::CloseCode;
use xnet::result::{Error, Kind};
use xnet::util::Token;
use xnet::Settings;

/// A handler that records what it saw.
struct Probe {
    messages: Vec<Message>,
    shutdowns: usize,
    closes: Vec<u16>,
}

impl Probe {
    fn new() -> Probe {
        Probe { messages: Vec::new(), shutdowns: 0, closes: Vec::new() }
    }
}

impl Handler for Probe {
    fn on_message(&mut self, msg: Message) -> Result<(), Error> {
        self.messages.push(msg);
        Ok(())
    }

    fn on_shutdown(&mut self) {
        self.shutdowns += 1;
    }

    fn on_close(&mut self, code: CloseCode, _reason: &str) {
        self.closes.push(code.into());
    }
}

fn open_connection(settings: Settings) -> Connection<Probe> {
    let mut conn = Connection::new(Token(0), Probe::new(), settings, 7);
    conn.open().unwrap();
    conn.as_server().unwrap();
    conn
}

#[test]
fn compaction_preserves_unread() {
    let mut buf = Buffer::new(8);
    buf.append(&[1, 2, 3, 4, 5, 6]);
    buf.advance(2);
    assert_eq!(buf.unread_bytes(), vec![3, 4, 5, 6]);
    buf.compact();
    assert_eq!(buf.unread_bytes(), vec![3, 4, 5, 6]);
    assert_eq!(buf.pos, 0);
}

#[test]
fn read_on_connecting_is_internal() {
    let mut conn = Connection::new(Token(0), Probe::new(), Settings::default(), 1);
    let err = conn.read(Some(&[1u8][..])).unwrap_err();
    assert_eq!(err.kind, Kind::Internal);
}

#[test]
fn read_delivers_text_message() {
    let mut conn = open_connection(Settings::default());
    let more = conn.read(Some("Hello".as_bytes())).unwrap();
    assert!(more);
    assert_eq!(conn.handler.messages, vec![Message::Text("Hello".to_owned())]);
    assert!(conn.events().is_readable());
}

#[test]
fn read_invalid_utf8_is_encoding_error() {
    let mut conn = open_connection(Settings::default());
    let err = conn.read(Some(&[0xff, 0xfe][..])).unwrap_err();
    assert_eq!(err.kind, Kind::Encoding);
}

#[test]
fn read_half_close_disconnects_when_idle() {
    let mut conn = open_connection(Settings::default());
    let more = conn.read(Some(&[][..])).unwrap();
    assert!(!more);
    assert!(conn.events().is_empty());
    assert_eq!(conn.handler.closes, vec![1006u16]);
}

#[test]
fn read_half_close_keeps_pending_write() {
    let mut conn = open_connection(Settings::default());
    conn.send_message(Message::text("out".to_owned())).unwrap();
    let more = conn.read(Some(&[][..])).unwrap();
    assert!(!more);
    assert!(!conn.events().is_readable());
    assert!(conn.events().is_writable());
}

#[test]
fn send_message_arms_writable() {
    let mut conn = open_connection(Settings::default());
    conn.send_message(Message::text("Hello".to_owned())).unwrap();
    assert!(conn.events().is_writable());
    assert_eq!(conn.out_buffer.unread_bytes(), "Hello".as_bytes().to_vec());
}

#[test]
fn send_message_ignored_when_closing() {
    let mut conn = open_connection(Settings::default());
    conn.send_close(CloseCode::Normal, "").unwrap();
    conn.send_message(Message::text("late".to_owned())).unwrap();
    assert_eq!(conn.out_buffer.unread_bytes(), Vec::<u8>::new());
    assert!(!conn.events().is_writable());
}

#[test]
fn send_message_capacity_error() {
    let mut settings = Settings::default();
    settings.out_buffer_capacity = 4;
    settings.out_buffer_grow = false;
    let mut conn = open_connection(settings);
    let err = conn.send_message(Message::binary(vec![0u8; 16])).unwrap_err();
    assert_eq!(err.kind, Kind::Capacity);
}

#[test]
fn write_drains_and_rearms() {
    let mut conn = open_connection(Settings::default());
    conn.send_message(Message::text("Hello".to_owned())).unwrap();
    conn.write(Some(2)).unwrap();
    assert_eq!(conn.out_buffer.unread_bytes(), "llo".as_bytes().to_vec());
    assert!(conn.events().is_writable());
    conn.write(Some(3)).unwrap();
    assert_eq!(conn.out_buffer.unread_bytes(), Vec::<u8>::new());
    assert!(!conn.events().is_writable());
    assert!(conn.events().is_readable());
}

#[test]
fn send_close_transitions_forward() {
    let mut conn = open_connection(Settings::default());
    assert!(conn.state.is_open());
    conn.send_close(CloseCode::Normal, "bye").unwrap();
    assert_eq!(conn.state, State::AwaitingClose);
    assert!(conn.state.is_closing());
}

#[test]
fn send_close_is_idempotent() {
    let mut conn = open_connection(Settings::default());
    conn.send_close(CloseCode::Normal, "bye").unwrap();
    conn.send_close(CloseCode::Normal, "again").unwrap();
    conn.send_close(CloseCode::Away, "still").unwrap();
    assert_eq!(conn.state, State::AwaitingClose);
}

#[test]
fn shutdown_notifies_then_closes() {
    let mut conn = open_connection(Settings::default());
    conn.shutdown();
    assert_eq!(conn.handler.shutdowns, 1);
    assert_eq!(conn.state, State::AwaitingClose);
}

#[test]
fn reset_server_is_internal() {
    let mut conn = open_connection(Settings::default());
    let err = conn.reset().unwrap_err();
    assert_eq!(err.kind, Kind::Internal);
    assert_eq!(err.details, "Server connections cannot be reset.".to_owned());
}

#[test]
fn reset_exhausted_is_internal() {
    let mut conn = Connection::new(Token(1), Probe::new(), Settings::default(), 2);
    conn.open().unwrap();
    conn.as_client("peer".to_owned(), Vec::new()).unwrap();
    let err = conn.reset().unwrap_err();
    assert_eq!(err.kind, Kind::Internal);
    assert_eq!(err.details, "Exhausted possible addresses.".to_owned());
}

#[test]
fn reset_pops_next_address() {
    let mut conn = Connection::new(Token(1), Probe::new(), Settings::default(), 2);
    conn.open().unwrap();
    conn.as_client(
        "peer".to_owned(),
        vec!["10.0.0.1:4000".to_owned(), "10.0.0.2:4000".to_owned()],
    )
    .unwrap();
    let addr = conn.reset().unwrap();
    assert_eq!(addr, "10.0.0.2:4000".to_owned());
    assert_eq!(conn.events(), Ready { readable: true, writable: false });
    let addr = conn.reset().unwrap();
    assert_eq!(addr, "10.0.0.1:4000".to_owned());
    assert!(conn.reset().is_err());
}

#[test]
fn error_on_open_connection_closes_with_matching_code() {
    let mut settings = Settings::default();
    settings.panic_on_internal = false;
    let mut conn = open_connection(settings);
    conn.error(Error::new(Kind::Internal, "boom"));
    assert_eq!(conn.state, State::AwaitingClose);
}

#[test]
fn error_io_disconnects() {
    let mut conn = open_connection(Settings::default());
    conn.error(Error::new(Kind::Io(Some(32)), "broken pipe"));
    assert!(conn.events().is_empty());
    assert_eq!(conn.handler.closes, vec![1006u16]);
}

#[test]
fn error_while_connecting_stages_response() {
    let mut conn = Connection::new(Token(0), Probe::new(), Settings::default(), 1);
    conn.error(Error::new(Kind::Protocol, "bad"));
    assert!(!conn.events().is_readable());
    assert!(conn.events().is_writable());
    assert_eq!(conn.state, State::Connecting);
}
