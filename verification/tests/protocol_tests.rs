use notebook_checker::fault::Fault;
use notebook_checker::protocol::{
    banner, build_get_note, build_login, build_register, build_set_note, check_banner, check_help,
    contains_entry, help_text, parse_listing, parse_login_response, parse_register_response,
    parse_set_note_response,
};
use notebook_checker::repr::bytes_debug_repr;

fn v(s: &[u8]) -> Vec<u8> {
    s.to_vec()
}

#[test]
fn banner_matches_exactly() {
    assert_eq!(banner(), v(b"Welcome to the 1337 n0t3b00k!\n> "));
    assert!(check_banner(&v(b"Welcome to the 1337 n0t3b00k!\n> ")).is_ok());
}

#[test]
fn truncated_banner_is_a_protocol_fault() {
    match check_banner(&v(b"Welcome to the 1337 n0t3b00k!")) {
        Err(Fault::ProtocolFault(m)) => assert_eq!(m, "unexpected banner"),
        other => panic!("expected a protocol fault, got {:?}", other),
    }
}

#[test]
fn differently_cased_banner_is_a_protocol_fault() {
    assert!(matches!(
        check_banner(&v(b"welcome to the 1337 n0t3b00k!\n> ")),
        Err(Fault::ProtocolFault(_))
    ));
}

#[test]
fn register_and_login_accept_only_the_literal_acknowledgement() {
    assert!(parse_register_response(&v(b"User successfully registered")).is_ok());
    assert!(matches!(
        parse_register_response(&v(b"User successfully registered!")),
        Err(Fault::ProtocolFault(m)) if m == "registration rejected"
    ));
    assert!(matches!(
        parse_register_response(&v(b"")),
        Err(Fault::ProtocolFault(_))
    ));
    assert!(parse_login_response(&v(b"Successfully logged in!")).is_ok());
    assert!(matches!(
        parse_login_response(&v(b"Successfully logged in")),
        Err(Fault::ProtocolFault(m)) if m == "login rejected"
    ));
}

#[test]
fn set_note_response_yields_id_42() {
    let id = parse_set_note_response(&v(b"Note saved! ID is 42!")).unwrap();
    assert_eq!(id, v(b"42"));
}

#[test]
fn set_note_response_without_template_is_rejected() {
    match parse_set_note_response(&v(b"Something else entirely")) {
        Err(Fault::ProtocolFault(m)) => assert_eq!(m, "unexpected set-note response"),
        other => panic!("expected a protocol fault, got {:?}", other),
    }
}

#[test]
fn set_note_id_runs_to_end_when_no_bang_follows() {
    let id = parse_set_note_response(&v(b"Note saved! ID is 7")).unwrap();
    assert_eq!(id, v(b"7"));
}

#[test]
fn command_lines_embed_their_arguments() {
    assert_eq!(
        build_register(&v(b"alice"), &v(b"pw12")),
        v(b"reg alice pw12")
    );
    assert_eq!(build_login(&v(b"alice"), &v(b"pw12")), v(b"log alice pw12"));
    assert_eq!(build_set_note(&v(b"hello")), v(b"set hello"));
    assert_eq!(build_get_note(&v(b"42")), v(b"get 42"));
}

#[test]
fn listing_keeps_second_field_per_line_in_order() {
    let entries = parse_listing(&v(b"0: abc\n1: def"));
    assert_eq!(entries, vec![v(b"abc"), v(b"def")]);
}

#[test]
fn listing_skips_lines_without_separator() {
    let entries = parse_listing(&v(b"These are your notes:\n0: x\njunk"));
    assert_eq!(entries, vec![v(b"x")]);
}

#[test]
fn listing_of_empty_body_is_empty() {
    let entries = parse_listing(&v(b""));
    assert!(entries.is_empty());
}

#[test]
fn listing_field_stops_at_second_separator() {
    let entries = parse_listing(&v(b"0: a: b"));
    assert_eq!(entries, vec![v(b"a")]);
}

#[test]
fn listing_twice_without_writes_is_identical() {
    let response = v(b"0: first\n1: second\n2: third");
    let once = parse_listing(&response);
    let again = parse_listing(&response);
    assert_eq!(once, again);
}

#[test]
fn listing_membership() {
    let entries = parse_listing(&v(b"0: aa\n1: bb"));
    assert!(contains_entry(&entries, &v(b"bb")));
    assert!(!contains_entry(&entries, &v(b"cc")));
}

#[test]
fn help_text_must_match_exactly() {
    let exact = v(
        b"\nThis is a notebook service. Commands:\nreg USER PW - Register new account\nlog USER PW - Login to account\nset TEXT..... - Set a note\nuser  - List all users\nlist - List all notes\nexit - Exit!\ndump - Dump the database\nget ID",
    );
    assert_eq!(help_text(), exact);
    assert!(check_help(&exact).is_ok());
    match check_help(&v(b"help yourself")) {
        Err(Fault::VerificationFault(m)) => assert_eq!(m, "help text mismatch"),
        other => panic!("expected a verification fault, got {:?}", other),
    }
}

#[test]
fn debug_repr_escapes_bytes() {
    assert_eq!(bytes_debug_repr(b"ab"), "b'ab'");
    assert_eq!(bytes_debug_repr(b"a\nb"), "b'a\\nb'");
    assert_eq!(bytes_debug_repr(&[0u8, 255u8]), "b'\\x00\\xff'");
    assert_eq!(bytes_debug_repr(b"'\\"), "b'\\'\\\\'");
    assert_eq!(bytes_debug_repr(b"\t\r\""), "b'\\t\\r\\\"'");
}
