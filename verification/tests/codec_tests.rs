use notebook_checker::codec::{frame_command, read_until_delimiter};
use notebook_checker::fault::Fault;
use notebook_checker::protocol::prompt;

fn v(s: &[u8]) -> Vec<u8> {
    s.to_vec()
}

#[test]
fn well_formed_response_is_split_exactly() {
    let stream = v(b"User successfully registered\n> ");
    let (body, consumed) = read_until_delimiter(&stream, &prompt()).unwrap();
    assert_eq!(body, v(b"User successfully registered"));
    assert_eq!(consumed, stream.len());
}

#[test]
fn split_stops_at_first_marker() {
    let stream = v(b"x\n> y\n> ");
    let (body, consumed) = read_until_delimiter(&stream, &prompt()).unwrap();
    assert_eq!(body, v(b"x"));
    assert_eq!(consumed, 4);
}

#[test]
fn trailing_bytes_after_marker_are_left_unconsumed() {
    let stream = v(b"A\n> B");
    let (body, consumed) = read_until_delimiter(&stream, &prompt()).unwrap();
    assert_eq!(body, v(b"A"));
    assert_eq!(consumed, 4);
}

#[test]
fn empty_body_before_marker() {
    let stream = v(b"\n> ");
    let (body, consumed) = read_until_delimiter(&stream, &prompt()).unwrap();
    assert_eq!(body, v(b""));
    assert_eq!(consumed, 3);
}

#[test]
fn stream_without_marker_fails_with_protocol_fault() {
    let stream = v(b"no marker here, not even at the end");
    match read_until_delimiter(&stream, &prompt()) {
        Err(Fault::ProtocolFault(m)) => assert_eq!(m, "delimiter not found"),
        other => panic!("expected a protocol fault, got {:?}", other),
    }
}

#[test]
fn partial_marker_at_stream_end_fails() {
    let stream = v(b"body\n>");
    assert!(matches!(
        read_until_delimiter(&stream, &prompt()),
        Err(Fault::ProtocolFault(_))
    ));
}

#[test]
fn frame_appends_single_terminator() {
    let line = v(b"reg alice pw");
    assert_eq!(frame_command(&line), v(b"reg alice pw\n"));
}
