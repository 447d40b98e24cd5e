use shardrpc::handler::reverse;
use shardrpc::turn::{serve_turn, TurnError};

#[test]
fn reverse_hello() {
    assert_eq!(reverse("hello"), "olleh");
}

#[test]
fn reverse_empty_and_multibyte() {
    assert_eq!(reverse(""), "");
    assert_eq!(reverse("h\u{e9}llo \u{1f600}"), "\u{1f600} oll\u{e9}h");
}

#[test]
fn hello_turn_replies_olleh() {
    let r = serve_turn(b"hello");
    assert_eq!(r, Ok(Some(b"olleh".to_vec())));
}

#[test]
fn empty_turn_is_keep_alive() {
    assert_eq!(serve_turn(b""), Ok(None));
}

#[test]
fn invalid_text_fails_only_that_turn() {
    assert_eq!(serve_turn(&[0x66, 0xff, 0x6f]), Err(TurnError::Encoding));
    assert_eq!(serve_turn(&[0xc3]), Err(TurnError::Encoding));
    assert_eq!(serve_turn(&[0xed, 0xa0, 0x80]), Err(TurnError::Encoding));
    assert_eq!(serve_turn(b"ok"), Ok(Some(b"ko".to_vec())));
}

#[test]
fn multibyte_turn_reverses_characters() {
    let r = serve_turn("a\u{e9}b".as_bytes());
    assert_eq!(r, Ok(Some("b\u{e9}a".as_bytes().to_vec())));
}

#[test]
fn two_connections_no_cross_talk() {
    let first = serve_turn(b"abc");
    let second = serve_turn(b"xyz");
    assert_eq!(first, Ok(Some(b"cba".to_vec())));
    assert_eq!(second, Ok(Some(b"zyx".to_vec())));
}
