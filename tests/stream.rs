use rutty::command::{CommandError, CommandStreamItem, StreamSource, TerminalSize, next_stream_step};
use rutty::protocol::{WsMessage, NORMAL_CLOSURE};
use rutty::session::outbound_message;

fn exit_reason(source: StreamSource) -> String {
    let step = next_stream_step(source);
    assert!(step.finished);
    match step.item {
        Some(CommandStreamItem::Exit(r)) => r,
        other => panic!("unexpected {:?}", other),
    }
}

#[test]
fn exit_code_seven_closes_normally() {
    let step = next_stream_step(StreamSource::Exited(Some(7)));
    assert!(step.finished);
    assert!(!step.kill);
    let item = step.item.expect("an exit event");
    match &item {
        CommandStreamItem::Exit(r) => {
            assert_eq!(r, "Command exited with status code: 7");
            assert!(r.contains('7'));
        }
        other => panic!("unexpected {:?}", other),
    }
    match outbound_message(item) {
        Some(WsMessage::Close(Some(f))) => {
            assert_eq!(f.code, NORMAL_CLOSURE);
            assert_eq!(f.code, 1000);
            assert_eq!(f.reason, "Command exited with status code: 7");
        }
        other => panic!("unexpected {:?}", other),
    }
}

#[test]
fn exit_without_code_counts_as_zero() {
    assert_eq!(exit_reason(StreamSource::Exited(None)), "Command exited with status code: 0");
}

#[test]
fn exit_codes_written_in_decimal() {
    assert_eq!(exit_reason(StreamSource::Exited(Some(255))), "Command exited with status code: 255");
    assert_eq!(exit_reason(StreamSource::Exited(Some(-3))), "Command exited with status code: -3");
    assert_eq!(
        exit_reason(StreamSource::Exited(Some(i32::MIN))),
        "Command exited with status code: -2147483648"
    );
}

#[test]
fn abort_kills_and_ends_stream() {
    let step = next_stream_step(StreamSource::Aborted);
    assert!(step.kill);
    assert_eq!(exit_reason(StreamSource::Aborted), "Aborted");
}

#[test]
fn output_passes_through() {
    let step = next_stream_step(StreamSource::Output(b"abc".to_vec()));
    assert!(!step.finished);
    match step.item {
        Some(CommandStreamItem::Output(b)) => {
            match outbound_message(CommandStreamItem::Output(b)) {
                Some(WsMessage::Binary(d)) => assert_eq!(d, b"abc".to_vec()),
                other => panic!("unexpected {:?}", other),
            }
        }
        other => panic!("unexpected {:?}", other),
    }
}

#[test]
fn device_closed_read_error_is_suppressed() {
    let step = next_stream_step(StreamSource::ReadFailed(Some(5), "Input/output error (os error 5)".to_string()));
    assert!(step.item.is_none());
    assert!(!step.finished);
}

#[test]
fn other_read_errors_are_reported_and_not_sent() {
    let step = next_stream_step(StreamSource::ReadFailed(Some(4), "Interrupted".to_string()));
    assert!(!step.finished);
    let item = step.item.expect("an error event");
    assert!(matches!(&item, CommandStreamItem::Error(m) if m == "Interrupted"));
    assert!(outbound_message(item).is_none());
    let step = next_stream_step(StreamSource::ReadFailed(None, "odd".to_string()));
    assert!(matches!(step.item, Some(CommandStreamItem::Error(_))));
    let step = next_stream_step(StreamSource::WaitFailed("wait".to_string()));
    assert!(!step.finished);
    assert!(matches!(step.item, Some(CommandStreamItem::Error(_))));
}

#[test]
fn command_error_text() {
    let e = CommandError::Error("no such file".to_string());
    assert_eq!(e.to_string(), "Failed to start command: no such file");
}

#[test]
fn terminal_size_getters() {
    let s = TerminalSize(24, 80);
    assert_eq!(s.rows(), 24);
    assert_eq!(s.cols(), 80);
}
