use signal2sip::c_string::{cstr_to_string, peer_id_cstring};

#[test]
fn a_peer_id_gets_a_terminator() {
    assert_eq!(peer_id_cstring("ab"), vec![b'a', b'b', 0]);
    assert_eq!(peer_id_cstring(""), vec![0]);
    assert_eq!(peer_id_cstring("\u{e9}"), vec![0xc3, 0xa9, 0]);
}

#[test]
fn a_peer_id_with_a_nul_becomes_empty() {
    assert_eq!(peer_id_cstring("a\0b"), vec![0]);
    assert_eq!(peer_id_cstring("\0"), vec![0]);
    assert_eq!(peer_id_cstring("ab\0"), vec![0]);
}

#[test]
fn a_null_pointer_reads_as_empty() {
    assert_eq!(cstr_to_string(None), "");
    assert_eq!(cstr_to_string(Some(&[])), "");
}

#[test]
fn valid_text_is_read_as_it_is() {
    assert_eq!(cstr_to_string(Some(b"peer-1")), "peer-1");
    assert_eq!(cstr_to_string(Some("\u{1f600}x".as_bytes())), "\u{1f600}x");
}

#[test]
fn invalid_text_is_replaced() {
    assert_eq!(cstr_to_string(Some(&[b'a', 0xff, b'b'])), "a\u{fffd}b");
    assert_eq!(cstr_to_string(Some(&[0xe2, 0x82])), "\u{fffd}");
}

#[test]
fn a_peer_id_survives_the_round_trip() {
    for id in ["", "plain", "caf\u{e9}", "\u{65e5}\u{672c}", "\u{10ffff}"] {
        let c = peer_id_cstring(id);
        assert_eq!(c.last(), Some(&0));
        assert!(!c[..c.len() - 1].contains(&0));
        assert_eq!(cstr_to_string(Some(&c[..c.len() - 1])), id);
    }
}
