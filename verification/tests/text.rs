use zmq::text::bytes_to_text;

#[test]
fn bytes_that_encode_a_text_are_read_as_that_text() {
    assert_eq!(bytes_to_text(b"hello"), "hello");
    assert_eq!(bytes_to_text(&[0x68, 0xc3, 0xa9]), "h\u{e9}");
    assert_eq!(bytes_to_text(&[0xf0, 0x9f, 0xa6, 0x80]), "\u{1f980}");
}

#[test]
fn no_bytes_are_read_as_the_empty_text() {
    assert_eq!(bytes_to_text(&[]), "");
}

#[test]
fn a_nul_byte_is_kept_in_the_text() {
    assert_eq!(bytes_to_text(&[0x61, 0x00, 0x62]), "a\u{0}b");
}

#[test]
fn bytes_that_encode_no_text_are_replaced() {
    assert_eq!(bytes_to_text(&[0xff]), "\u{fffd}");
    assert_eq!(bytes_to_text(&[0x61, 0xc3]), "a\u{fffd}");
    assert_eq!(bytes_to_text(&[0xed, 0xa0, 0x80, 0x62]), "\u{fffd}\u{fffd}\u{fffd}b");
}
