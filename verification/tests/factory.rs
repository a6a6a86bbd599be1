use xnet::communication::Sender;
use xnet::factory::Factory;
use xnet::handler::Handler;
use xnet::message::Message;
use xnet::result::Error;
use xnet::util::Token;

#[derive(Debug, Eq, PartialEq)]
struct M;

impl Handler for M {
    fn on_message(&mut self, _: Message) -> Result<(), Error> {
        Ok(println!("test"))
    }
}

#[test]
fn impl_factory() {
    struct X;

    impl Factory for X {
        type Handler = M;
        fn connection_made(&mut self, _: Sender) -> M {
            M
        }
    }

    let (chn, _) = std::sync::mpsc::sync_channel(42);

    let mut x = X;
    let m = x.connection_made(Sender::new(Token(0), chn, 0));
    assert_eq!(m, M);
}

#[test]
fn closure_factory() {
    let (chn, _) = std::sync::mpsc::sync_channel(42);

    let mut factory = |_| |_| Ok(());

    factory.connection_made(Sender::new(Token(0), chn, 0));
}

#[test]
fn connection_lost() {
    struct X;

    impl Factory for X {
        type Handler = M;
        fn connection_made(&mut self, _: Sender) -> M {
            M
        }
        fn connection_lost(&mut self, handler: M) {
            assert_eq!(handler, M);
        }
    }

    let (chn, _) = std::sync::mpsc::sync_channel(42);

    let mut x = X;
    let m = x.connection_made(Sender::new(Token(0), chn, 0));
    x.connection_lost(m);
}
