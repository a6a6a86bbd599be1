use xnet::communication::{Command, Sender, Signal};
use xnet::connection::State as ConnState;
use xnet::factory::Factory;
use xnet::handler::Handler;
use xnet::io::{Followup, Handler as Reactor, Timeout, ALL};
use xnet::message::Message;
use xnet::protocol::CloseCode;
use xnet::result::{Error, Kind};
use xnet::util::Token;
use xnet::{Builder, Settings};

/// A handler that echoes every message back through its sender.
struct Echo {
    out: Sender,
}

impl Handler for Echo {
    fn on_message(&mut self, msg: Message) -> Result<(), Error> {
        self.out.send(msg)
    }
}

struct EchoFactory;

impl Factory for EchoFactory {
    type Handler = Echo;
    fn connection_made(&mut self, out: Sender) -> Echo {
        Echo { out }
    }
}

fn reactor(settings: Settings) -> Reactor<EchoFactory> {
    Reactor::new(EchoFactory, settings)
}

#[test]
fn accept_assigns_token_and_current_id() {
    let mut r = reactor(Settings::default());
    let t0 = r.accept().unwrap();
    let t1 = r.accept().unwrap();
    assert_eq!(t0, Token(0));
    assert_eq!(t1, Token(1));
    let c0 = r.connections[0].as_ref().unwrap();
    let c1 = r.connections[1].as_ref().unwrap();
    assert_eq!(c0.token, Token(0));
    assert_eq!(c1.token, Token(1));
    assert_eq!(c0.connection_id, 0);
    assert_eq!(c1.connection_id, 1);
    assert_eq!(r.next_connection_id, 2);
}

#[test]
fn accept_over_capacity_is_refused() {
    let mut settings = Settings::default();
    settings.max_connections = 1;
    let mut r = reactor(settings);
    r.accept().unwrap();
    let err = r.accept().unwrap_err();
    assert_eq!(err.kind, Kind::Capacity);
    // The reactor keeps serving: the first connection is untouched.
    assert!(r.connections[0].is_some());
}

#[test]
fn recycled_slot_gets_fresh_id() {
    let mut settings = Settings::default();
    settings.max_connections = 1;
    let mut r = reactor(settings);
    let t = r.accept().unwrap();
    let first_id = r.connections[0].as_ref().unwrap().connection_id;
    r.remove_connection(t);
    let t2 = r.accept().unwrap();
    assert_eq!(t2, Token(0));
    let second_id = r.connections[0].as_ref().unwrap().connection_id;
    assert_ne!(first_id, second_id);
}

#[test]
fn stale_command_is_dropped() {
    let mut r = reactor(Settings::default());
    let t = r.accept().unwrap();
    let live_id = r.connections[0].as_ref().unwrap().connection_id;
    let stale = Command::new(t, Signal::Message(Message::text("late".to_owned())), live_id + 1);
    r.handle_queue(stale, 0);
    let out = r.out_bytes_at(t).unwrap();
    assert_eq!(out, Vec::<u8>::new());
}

#[test]
fn matching_command_is_delivered() {
    let mut r = reactor(Settings::default());
    let t = r.accept().unwrap();
    let live_id = r.connections[0].as_ref().unwrap().connection_id;
    let cmd = Command::new(t, Signal::Message(Message::text("hi".to_owned())), live_id);
    let f = r.handle_queue(cmd, 0);
    assert!(matches!(f, Followup::Schedule(tok) if tok == t));
    assert_eq!(r.out_bytes_at(t).unwrap(), "hi".as_bytes().to_vec());
}

#[test]
fn broadcast_reaches_every_connection() {
    let mut r = reactor(Settings::default());
    let t0 = r.accept().unwrap();
    let t1 = r.accept().unwrap();
    let cmd = Command::new(Token(ALL), Signal::Message(Message::text("ping".to_owned())), 0);
    let f = r.handle_queue(cmd, 0);
    assert!(matches!(f, Followup::ScheduleAll));
    assert_eq!(r.out_bytes_at(t0).unwrap(), "ping".as_bytes().to_vec());
    assert_eq!(r.out_bytes_at(t1).unwrap(), "ping".as_bytes().to_vec());
}

#[test]
fn echo_round_trip() {
    let mut r = reactor(Settings::default());
    let t = r.accept().unwrap();
    // Bytes arrive; the handler echoes them as a command on the queue.
    let more = r.read_at(t, Some("Hello".as_bytes())).unwrap();
    assert!(more);
    let cmd = r.next_command().unwrap();
    let f = r.handle_queue(cmd, 0);
    assert!(matches!(f, Followup::Schedule(tok) if tok == t));
    // The echoed payload is queued for the wire, verbatim.
    assert_eq!(r.out_bytes_at(t).unwrap(), "Hello".as_bytes().to_vec());
    // The socket drains it and writable interest falls away.
    r.write_at(t, Some(5)).unwrap();
    assert_eq!(r.out_bytes_at(t).unwrap(), Vec::<u8>::new());
    assert!(!r.events_at(t).unwrap().is_writable());
}

#[test]
fn connect_command_asks_for_dial() {
    let mut r = reactor(Settings::default());
    let cmd = Command::new(Token(ALL), Signal::Connect("10.1.1.1:9000".to_owned()), 0);
    let f = r.handle_queue(cmd, 0);
    assert!(matches!(f, Followup::Dial(url, origin) if url == "10.1.1.1:9000" && origin.is_none()));
}

#[test]
fn client_retry_redials_next_address() {
    let mut r = reactor(Settings::default());
    let t = r.start_connect().unwrap();
    r.finish_connect(t, "peer".to_owned(), vec!["10.0.0.2:4000".to_owned()]).unwrap();
    let f = r.pulse_failed(t, Error::new(Kind::Io(Some(111)), "connection refused"));
    assert!(matches!(f, Followup::Redial(tok, addr) if tok == t && addr == "10.0.0.2:4000"));
}

#[test]
fn shutdown_reaches_every_connection() {
    let mut r = reactor(Settings::default());
    let t0 = r.accept().unwrap();
    let t1 = r.accept().unwrap();
    let cmd = Command::new(t0, Signal::Shutdown, 0);
    let f = r.handle_queue(cmd, 0);
    assert!(matches!(f, Followup::Done));
    assert!(!r.state.is_active());
    assert_eq!(r.connections[t0.0].as_ref().unwrap().state, ConnState::AwaitingClose);
    assert_eq!(r.connections[t1.0].as_ref().unwrap().state, ConnState::AwaitingClose);
}

#[test]
fn timeout_schedules_fires_once_and_cancels() {
    let mut r = reactor(Settings::default());
    let t = r.accept().unwrap();
    let live_id = r.connections[0].as_ref().unwrap().connection_id;
    let cmd = Command::new(t, Signal::Timeout { delay: 50, token: Token(7) }, live_id);
    r.handle_queue(cmd, 1000);
    // Not yet due.
    assert!(r.timer.poll(1049).is_none());
    // Due: fires exactly once.
    let fired: Timeout = r.timer.poll(1050).unwrap();
    assert_eq!(fired.connection, t);
    assert_eq!(fired.event, Token(7));
    assert!(r.timer.poll(2000).is_none());
    // A cancelled timeout never fires.
    let handle = r.timer.schedule(1100, Timeout { connection: t, event: Token(8) }).unwrap();
    r.timer.cancel(handle);
    assert!(r.timer.poll(5000).is_none());
}

#[test]
fn fired_timeout_reaches_handler_of_owner() {
    struct Recorder {
        fired: std::rc::Rc<std::cell::RefCell<Vec<usize>>>,
    }
    impl Handler for Recorder {
        fn on_message(&mut self, _msg: Message) -> Result<(), Error> {
            Ok(())
        }
        fn on_timeout(&mut self, event: Token) -> Result<(), Error> {
            self.fired.borrow_mut().push(event.0);
            Ok(())
        }
    }
    let fired = std::rc::Rc::new(std::cell::RefCell::new(Vec::new()));
    let fired_in = fired.clone();
    let mut r = Reactor::new(
        move |_out: Sender| {
            let fired = fired_in.clone();
            Recorder { fired }
        },
        Settings::default(),
    );
    let t = r.accept().unwrap();
    let f = r.handle_timeout(Timeout { connection: t, event: Token(7) });
    assert!(matches!(f, Followup::Schedule(tok) if tok == t));
    assert_eq!(*fired.borrow(), vec![7usize]);
}

#[test]
fn idle_connection_is_reaped() {
    let mut r = reactor(Settings::default());
    let t = r.accept().unwrap();
    // A half-close with nothing to write drops all interest.
    r.read_at(t, Some(&[][..])).unwrap();
    let needs_schedule = r.check_active(t);
    assert!(!needs_schedule);
    assert!(r.connections[t.0].is_none());
}

#[test]
fn single_target_connect_names_its_origin() {
    let mut r = reactor(Settings::default());
    let t = r.accept().unwrap();
    let cmd = Command::new(t, Signal::Connect("10.1.1.2:9000".to_owned()), 0);
    let f = r.handle_queue(cmd, 0);
    assert!(matches!(f, Followup::Dial(url, origin) if url == "10.1.1.2:9000" && origin == Some(t)));
}

#[test]
fn exhausted_client_panics_when_asked() {
    let mut settings = Settings::default();
    settings.panic_on_new_connection = true;
    let mut r = reactor(settings);
    let t = r.start_connect().unwrap();
    r.finish_connect(t, "peer".to_owned(), Vec::new()).unwrap();
    let f = r.pulse_failed(t, Error::new(Kind::Io(Some(111)), "connection refused"));
    assert!(matches!(f, Followup::Panic(_)));
}

#[test]
fn poll_interrupt_shuts_down_when_asked() {
    let mut r = reactor(Settings::default());
    r.activate();
    assert!(r.state.is_active());
    r.poll_interrupted();
    assert!(!r.state.is_active());
    let mut settings = Settings::default();
    settings.shutdown_on_interrupt = false;
    let mut r = reactor(settings);
    r.activate();
    r.poll_interrupted();
    assert!(r.state.is_active());
}

#[test]
fn idle_client_reactor_stops() {
    let mut r = reactor(Settings::default());
    // Simulate the event loop having started.
    r.activate();
    // A pure client with no connection left goes inactive on the next check.
    r.check_count();
    assert!(!r.state.is_active());
}

#[test]
fn sender_queue_error_after_reactor_drop() {
    let r = reactor(Settings::default());
    let sender = r.sender();
    drop(r);
    let err = sender.send(Message::text("x".to_owned())).unwrap_err();
    assert_eq!(err.kind, Kind::Queue);
}

#[test]
fn sender_builds_broadcast_commands() {
    let r = reactor(Settings::default());
    let sender = r.sender();
    sender.broadcast(Message::text("ping".to_owned())).unwrap();
    sender.close(CloseCode::Normal).unwrap();
    sender.timeout(50, Token(7)).unwrap();
    let first = r.next_command().unwrap();
    assert_eq!(first.token(), Token(ALL));
    assert!(matches!(first.signal(), Signal::Message(m) if m == Message::text("ping".to_owned())));
    let second = r.next_command().unwrap();
    assert!(matches!(second.signal(), Signal::Close(code, _) if code == CloseCode::Normal));
    let third = r.next_command().unwrap();
    assert!(
        matches!(third.signal(), Signal::Timeout { delay, token } if delay == 50 && token == Token(7))
    );
    assert!(r.next_command().is_none());
}

#[test]
fn close_command_drives_close_handshake() {
    let mut r = reactor(Settings::default());
    let t = r.accept().unwrap();
    let live_id = r.connections[0].as_ref().unwrap().connection_id;
    let cmd = Command::new(t, Signal::Close(CloseCode::Normal, "bye".to_owned()), live_id);
    let f = r.handle_queue(cmd, 0);
    assert!(matches!(f, Followup::Schedule(tok) if tok == t));
    assert_eq!(r.connections[0].as_ref().unwrap().state, ConnState::AwaitingClose);
    // A second close leaves the state where it is.
    let again = Command::new(t, Signal::Close(CloseCode::Away, "again".to_owned()), live_id);
    r.handle_queue(again, 0);
    assert_eq!(r.connections[0].as_ref().unwrap().state, ConnState::AwaitingClose);
}

#[test]
fn sender_builds_single_target_commands() {
    let r = reactor(Settings::default());
    let sender = Sender::new(Token(3), r.sender_handler(), 11);
    sender.send(Message::text("one".to_owned())).unwrap();
    sender.close_with_reason(CloseCode::Away, "moving".to_owned()).unwrap();
    sender.connect("10.2.2.2:1234".to_owned()).unwrap();
    sender.shutdown().unwrap();
    sender.cancel(xnet::util::Timeout(9)).unwrap();
    let c = r.next_command().unwrap();
    assert_eq!(c.token(), Token(3));
    assert_eq!(c.connection_id(), 11);
    assert!(matches!(c.signal(), Signal::Message(_)));
    let c = r.next_command().unwrap();
    assert!(matches!(c.signal(), Signal::Close(CloseCode::Away, reason) if reason == "moving"));
    let c = r.next_command().unwrap();
    assert!(matches!(c.signal(), Signal::Connect(url) if url == "10.2.2.2:1234"));
    let c = r.next_command().unwrap();
    assert!(matches!(c.signal(), Signal::Shutdown));
    let c = r.next_command().unwrap();
    assert!(matches!(c.signal(), Signal::Cancel(h) if h == xnet::util::Timeout(9)));
}

#[test]
fn broadcast_close_reaches_every_connection() {
    let mut r = reactor(Settings::default());
    let t0 = r.accept().unwrap();
    let t1 = r.accept().unwrap();
    let cmd = Command::new(Token(ALL), Signal::Close(CloseCode::Away, "bye".to_owned()), 0);
    let f = r.handle_queue(cmd, 0);
    assert!(matches!(f, Followup::ScheduleAll));
    assert_eq!(r.connections[t0.0].as_ref().unwrap().state, ConnState::AwaitingClose);
    assert_eq!(r.connections[t1.0].as_ref().unwrap().state, ConnState::AwaitingClose);
}

#[test]
fn timer_at_capacity_is_timer_error() {
    let mut timer: xnet::timer::Timer<u8> = xnet::timer::Timer::new(2);
    timer.schedule(10, 1).unwrap();
    timer.schedule(20, 2).unwrap();
    let err = timer.schedule(30, 3).unwrap_err();
    assert_eq!(err.kind, Kind::Timer);
    assert_eq!(timer.len(), 2);
}

#[test]
fn panic_setting_defers_to_embedder() {
    let mut settings = Settings::default();
    settings.panic_on_queue = true;
    let mut r = reactor(settings);
    let t = r.accept().unwrap();
    let f = r.error_at(t, Error::new(Kind::Queue, "full"));
    assert!(matches!(f, Followup::Panic(_)));
    // The handler was not notified and the connection is untouched.
    assert_eq!(r.connections[t.0].as_ref().unwrap().state, ConnState::Open);
}

#[test]
fn builder_carries_settings() {
    let mut settings = Settings::default();
    settings.max_connections = 3;
    let mut b = Builder::new();
    b.with_settings(settings);
    assert_eq!(b.settings().max_connections, 3);
    let r = Reactor::new(EchoFactory, b.settings());
    assert_eq!(r.connections.len(), 3);
}
