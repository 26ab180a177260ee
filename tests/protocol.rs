use rutty::command::TerminalSize;
use rutty::protocol::{decode_text, CloseFrame, CommandMessage, WsMessage};
use rutty::session::{inbound_action, InboundAction};

fn input_of(m: CommandMessage) -> Vec<u8> {
    match m {
        CommandMessage::Input(d) => d,
        other => panic!("expected input, got {:?}", other),
    }
}

#[test]
fn start_frame_with_size() {
    match decode_text("0;24;80") {
        CommandMessage::Start(Some(s)) => assert_eq!(s, TerminalSize(24, 80)),
        other => panic!("unexpected {:?}", other),
    }
}

#[test]
fn start_frame_without_size() {
    assert!(matches!(decode_text("0"), CommandMessage::Start(None)));
}

#[test]
fn start_frame_with_bad_size_has_no_size() {
    assert!(matches!(decode_text("0;abc;80"), CommandMessage::Start(None)));
    assert!(matches!(decode_text("0;24"), CommandMessage::Start(None)));
    assert!(matches!(decode_text("0;70000;80"), CommandMessage::Start(None)));
    assert!(matches!(decode_text("0;-1;80"), CommandMessage::Start(None)));
}

#[test]
fn start_frame_ignores_extra_fields_and_accepts_plus() {
    match decode_text("0;+24;080;junk") {
        CommandMessage::Start(Some(s)) => assert_eq!(s, TerminalSize(24, 80)),
        other => panic!("unexpected {:?}", other),
    }
}

#[test]
fn input_frame_payload() {
    assert_eq!(input_of(decode_text("1;hello")), b"hello".to_vec());
}

#[test]
fn input_frame_keeps_delimiters() {
    assert_eq!(input_of(decode_text("1;a;b;")), b"a;b;".to_vec());
}

#[test]
fn input_frame_without_delimiter_is_empty() {
    assert_eq!(input_of(decode_text("1")), Vec::<u8>::new());
}

#[test]
fn resize_frame() {
    match decode_text("2;30;100") {
        CommandMessage::Resize(s) => {
            assert_eq!(s.rows(), 30);
            assert_eq!(s.cols(), 100);
        }
        other => panic!("unexpected {:?}", other),
    }
}

#[test]
fn bad_resize_frame_is_raw_input() {
    assert_eq!(input_of(decode_text("2;x;1")), b"2;x;1".to_vec());
    assert_eq!(input_of(decode_text("2;10")), b"2;10".to_vec());
}

#[test]
fn long_first_field_is_raw_input() {
    assert_eq!(input_of(decode_text("x;1;2")), b"x;1;2".to_vec());
    assert_eq!(input_of(decode_text("00;1;2")), b"00;1;2".to_vec());
}

#[test]
fn unknown_discriminant_is_raw_input() {
    assert_eq!(input_of(decode_text("3;1;2")), b"3;1;2".to_vec());
    assert_eq!(input_of(decode_text("")), Vec::<u8>::new());
    assert_eq!(input_of(decode_text(";1")), b";1".to_vec());
}

#[test]
fn binary_frame_is_raw_input() {
    let bytes = vec![b'0', b';', b'2', b'4', 0, 255];
    let m = CommandMessage::from_message(WsMessage::Binary(bytes.clone()));
    assert_eq!(input_of(m), bytes);
    match inbound_action(WsMessage::Binary(vec![b'2', b';', b'1', b';', b'1']), true) {
        InboundAction::Write(d) => assert_eq!(d, b"2;1;1".to_vec()),
        other => panic!("unexpected {:?}", other),
    }
}

#[test]
fn text_message_is_decoded() {
    let m = CommandMessage::from_message(WsMessage::Text("2;5;6".to_string()));
    assert!(matches!(m, CommandMessage::Resize(TerminalSize(5, 6))));
}

#[test]
fn control_frames_are_irrelevant() {
    let m = CommandMessage::from_message(WsMessage::Ping(vec![1]));
    assert!(matches!(m, CommandMessage::Irrelevant(WsMessage::Ping(_))));
    let m = CommandMessage::from_message(WsMessage::Close(None));
    assert!(matches!(m, CommandMessage::Irrelevant(WsMessage::Close(None))));
}

#[test]
fn input_written_when_allowed() {
    match inbound_action(WsMessage::Text("1;hello".to_string()), true) {
        InboundAction::Write(d) => assert_eq!(d, b"hello".to_vec()),
        other => panic!("unexpected {:?}", other),
    }
}

#[test]
fn input_dropped_when_forbidden() {
    assert!(matches!(
        inbound_action(WsMessage::Text("1;hello".to_string()), false),
        InboundAction::Skip
    ));
    assert!(matches!(inbound_action(WsMessage::Binary(vec![1, 2]), false), InboundAction::Skip));
}

#[test]
fn resize_honoured_whatever_the_policy() {
    for allow in [true, false] {
        for _ in 0..2 {
            match inbound_action(WsMessage::Text("2;40;120".to_string()), allow) {
                InboundAction::Resize(s) => assert_eq!(s, TerminalSize(40, 120)),
                other => panic!("unexpected {:?}", other),
            }
        }
    }
}

#[test]
fn close_frame_stops_inbound_pump() {
    let close = WsMessage::Close(Some(CloseFrame { code: 1000, reason: "bye".to_string() }));
    assert!(matches!(inbound_action(close, true), InboundAction::Stop));
    assert!(matches!(inbound_action(WsMessage::Pong(vec![]), true), InboundAction::Skip));
    assert!(matches!(
        inbound_action(WsMessage::Text("0;24;80".to_string()), true),
        InboundAction::Skip
    ));
}
