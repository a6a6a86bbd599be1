use xnet::handler::Handler;
use xnet::message::Message;
use xnet::protocol::CloseCode;
use xnet::result::Error;

#[test]
fn handler() {
    struct H;

    impl Handler for H {
        fn on_open(&mut self) -> Result<(), Error> {
            Ok(())
        }

        fn on_message(&mut self, msg: Message) -> Result<(), Error> {
            Ok(assert_eq!(msg, Message::Text(String::from("testme"))))
        }

        fn on_close(&mut self, code: CloseCode, _: &str) {
            assert_eq!(code, CloseCode::Normal)
        }
    }

    let mut h = H;
    h.on_open().unwrap();
    h.on_message(Message::Text("testme".to_owned())).unwrap();
    h.on_close(CloseCode::Normal, "");
}

#[test]
fn closure_handler() {
    let mut close = |msg| {
        assert_eq!(msg, Message::Binary(vec![1, 2, 3]));
        Ok(())
    };

    close.on_message(Message::Binary(vec![1, 2, 3])).unwrap();
}
