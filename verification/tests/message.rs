use xnet::message::Message;
use xnet::protocol::OpCode;
use xnet::result::Kind;

#[test]
fn display() {
    let t = Message::text(format!("test"));
    assert_eq!(t.display_string(), "test".to_owned());

    let bin = Message::binary(vec![0, 1, 3, 4, 241]);
    assert_eq!(bin.display_string(), "Binary Data<length=5>".to_owned());
}

#[test]
fn binary_convert() {
    let bin = [6u8, 7, 8, 9, 10, 241];
    let msg = Message::from(&bin[..]);
    assert!(msg.is_binary());
    assert!(msg.into_text().is_err());
}

#[test]
fn binary_convert_vec() {
    let bin = vec![6u8, 7, 8, 9, 10, 241];
    let msg = Message::from(bin);
    assert!(msg.is_binary());
    assert!(msg.into_text().is_err());
}

#[test]
fn text_convert() {
    let s = "kiwotsukete";
    let msg = Message::from(s);
    assert!(msg.is_text());
}

#[test]
fn text_round_trip() {
    let msg = Message::from("kiwotsukete".to_owned());
    assert_eq!(msg.into_text().unwrap(), "kiwotsukete".to_owned());
}

#[test]
fn binary_data_round_trip() {
    let bytes = vec![6u8, 7, 8, 9, 10, 241];
    let msg = Message::from(bytes.clone());
    assert_eq!(msg.into_data(), bytes);
}

#[test]
fn binary_valid_utf8_into_text() {
    let msg = Message::binary("hello".as_bytes().to_vec());
    assert_eq!(msg.into_text().unwrap(), "hello".to_owned());
}

#[test]
fn binary_invalid_utf8_is_encoding_error() {
    let msg = Message::binary(vec![0xffu8, 0xfe]);
    let err = msg.into_text().unwrap_err();
    assert_eq!(err.kind, Kind::Encoding);
}

#[test]
fn message_len_and_empty() {
    let t = Message::text(String::new());
    assert!(t.is_empty());
    assert_eq!(t.len(), 0);
    let b = Message::binary(vec![1u8, 2, 3]);
    assert!(!b.is_empty());
    assert_eq!(b.len(), 3);
    assert_eq!(Message::text("日本".to_owned()).len(), 6);
}

#[test]
fn message_opcode_matches_tag() {
    assert_eq!(Message::text("x".to_owned()).opcode(), OpCode::Text);
    assert_eq!(Message::binary(vec![0u8]).opcode(), OpCode::Binary);
}
