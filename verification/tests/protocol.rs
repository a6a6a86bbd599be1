use xnet::protocol::{CloseCode, OpCode};

#[test]
fn opcode_from_u8() {
    let byte = 2u8;
    assert_eq!(OpCode::from(byte), OpCode::Binary);
}

#[test]
fn opcode_into_u8() {
    let text = OpCode::Text;
    let byte: u8 = text.into();
    assert_eq!(byte, 1u8);
}

#[test]
fn closecode_from_u16() {
    let byte = 1008u16;
    assert_eq!(CloseCode::from(byte), CloseCode::Policy);
}

#[test]
fn closecode_into_u16() {
    let text = CloseCode::Away;
    let byte: u16 = text.into();
    assert_eq!(byte, 1001u16);
}

#[test]
fn opcode_round_trip_named() {
    let named = [
        OpCode::Continue,
        OpCode::Text,
        OpCode::Binary,
        OpCode::Close,
        OpCode::Ping,
        OpCode::Pong,
    ];
    for code in named {
        let byte: u8 = code.into();
        assert_eq!(OpCode::from(byte), code);
    }
}

#[test]
fn opcode_unassigned_byte_is_bad() {
    assert_eq!(OpCode::from(7u8), OpCode::Bad);
    let byte: u8 = OpCode::Bad.into();
    assert_eq!(byte, 8u8);
}

#[test]
fn opcode_control_frames() {
    assert!(!OpCode::Text.is_control());
    assert!(!OpCode::Binary.is_control());
    assert!(!OpCode::Continue.is_control());
    assert!(OpCode::Close.is_control());
    assert!(OpCode::Ping.is_control());
    assert!(OpCode::Pong.is_control());
    assert!(OpCode::Bad.is_control());
}

#[test]
fn closecode_round_trip_named() {
    let named = [
        CloseCode::Normal,
        CloseCode::Away,
        CloseCode::Protocol,
        CloseCode::Unsupported,
        CloseCode::Status,
        CloseCode::Abnormal,
        CloseCode::Invalid,
        CloseCode::Policy,
        CloseCode::Size,
        CloseCode::Extension,
        CloseCode::Error,
        CloseCode::Restart,
        CloseCode::Again,
        CloseCode::Tls,
        CloseCode::Empty,
    ];
    for code in named {
        let number: u16 = code.into();
        assert_eq!(CloseCode::from(number), code);
    }
}

#[test]
fn closecode_other_carries_number() {
    let code = CloseCode::from(4321u16);
    assert_eq!(code, CloseCode::Other(4321));
    let number: u16 = code.into();
    assert_eq!(number, 4321u16);
}
