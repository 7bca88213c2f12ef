//! Peer identifiers as they cross the C boundary.

use vstd::prelude::*;
use vstd::utf8::*;

verus! {

/// The bytes, up to the terminator, of the C string that stands for `peer_id`: its UTF-8
/// encoding, or nothing if that holds a zero byte, which no C string can.
pub open spec fn peer_id_bytes(peer_id: Seq<char>) -> Seq<u8> {
    if encode_utf8(peer_id).contains(0) {
        Seq::empty()
    } else {
        encode_utf8(peer_id)
    }
}

/// The C string, terminator included, that stands for `peer_id`.
pub open spec fn peer_id_c_string(peer_id: Seq<char>) -> Seq<u8> {
    peer_id_bytes(peer_id).push(0)
}

/// What [`String::from_utf8_lossy`] makes of `bytes`: their decoding, with U+FFFD in place of
/// what is not UTF-8.
pub uninterp spec fn utf8_lossy(bytes: Seq<u8>) -> Seq<char>;

/// The text of a C string: its bytes without the terminator, or nothing for a null pointer.
pub open spec fn c_text(bytes: Option<Seq<u8>>) -> Seq<char> {
    match bytes {
        Some(b) => utf8_lossy(b),
        None => Seq::empty(),
    }
}

/// The bytes that an optional slice holds.
pub open spec fn bytes_of(bytes: Option<&[u8]>) -> Option<Seq<u8>> {
    match bytes {
        Some(b) => Some(b@),
        None => None,
    }
}

/// A C string that is valid UTF-8 is read as the text that it encodes.
pub open spec fn valid_text_is_kept(bytes: Option<Seq<u8>>) -> bool {
    bytes matches Some(b) ==> valid_utf8(b) ==> c_text(bytes) == decode_utf8(b)
}

/// Calls [`String::from_utf8_lossy`]. Claimed of it: its result depends on the bytes alone, and
/// bytes that are valid UTF-8 are decoded as they are. What it does with other bytes is not
/// said, beyond that it is a function of them.
#[verifier::external_body]
fn from_utf8_lossy(bytes: &[u8]) -> (text: String)
    ensures
        text@ == utf8_lossy(bytes@),
        valid_utf8(bytes@) ==> text@ == decode_utf8(bytes@),
{
    String::from_utf8_lossy(bytes).into_owned()
}

/// `peer_id` as a C string, terminator included. An identifier that cannot be one becomes the
/// empty string.
pub fn peer_id_cstring(peer_id: &str) -> (c_string: Vec<u8>)
    ensures
        c_string@ == peer_id_c_string(peer_id@),
{
    let bytes = peer_id.as_bytes();
    let mut c_string: Vec<u8> = Vec::new();
    let mut i: usize = 0;
    while i < bytes.len()
        invariant
            bytes@ == encode_utf8(peer_id@),
            i <= bytes@.len(),
            c_string@ == bytes@.take(i as int),
            !c_string@.contains(0),
        decreases bytes@.len() - i,
    {
        if bytes[i] == 0 {
            assert(encode_utf8(peer_id@).contains(0));
            let mut empty: Vec<u8> = Vec::new();
            empty.push(0);
            return empty;
        }
        c_string.push(bytes[i]);
        assert(c_string@ =~= bytes@.take(i as int + 1));
        i = i + 1;
    }
    assert(c_string@ =~= bytes@);
    c_string.push(0);
    c_string
}

/// The text of a C string, given its bytes without the terminator, or `None` for a null pointer.
pub fn cstr_to_string(bytes: Option<&[u8]>) -> (text: String)
    ensures
        text@ == c_text(bytes_of(bytes)),
        valid_text_is_kept(bytes_of(bytes)),
{
    match bytes {
        Some(b) => from_utf8_lossy(b),
        None => String::new(),
    }
}

proof fn lemma_zero_byte_of_scalar(scalar: u32)
    requires
        is_scalar(scalar),
    ensures
        encode_scalar(scalar).contains(0) <==> scalar == 0,
{
    let bytes = encode_scalar(scalar);
    assert(scalar <= 0x7f ==> ((scalar & 0x7f) as u8 == 0 <==> scalar == 0)) by (bit_vector);
    assert(forall|b: u8| #[trigger] (0xc0 | b) != 0u8) by (bit_vector);
    assert(forall|b: u8| #[trigger] (0xe0 | b) != 0u8) by (bit_vector);
    assert(forall|b: u8| #[trigger] (0xf0 | b) != 0u8) by (bit_vector);
    assert(forall|b: u8| #[trigger] (0x80 | b) != 0u8) by (bit_vector);
    if scalar == 0 {
        assert(bytes[0] == 0);
    }
}

/// The encoding of an identifier holds a zero byte just where the identifier holds U+0000: only
/// then is the empty string sent in its place.
pub proof fn law_only_nul_is_dropped(peer_id: Seq<char>)
    ensures
        encode_utf8(peer_id).contains(0) <==> peer_id.contains('\0'),
    decreases peer_id.len(),
{
    if peer_id.len() > 0 {
        let head = encode_scalar(peer_id[0] as u32);
        let tail = encode_utf8(peer_id.drop_first());
        char_is_scalar(peer_id[0]);
        lemma_zero_byte_of_scalar(peer_id[0] as u32);
        law_only_nul_is_dropped(peer_id.drop_first());
        if head.contains(0) {
            let i = choose|i: int| 0 <= i < head.len() && head[i] == 0;
            assert((head + tail)[i] == 0);
            char_u32_cast(peer_id[0], 0);
            char_u32_cast('\0', 0);
            assert(peer_id[0] == '\0');
        }
        if tail.contains(0) {
            let i = choose|i: int| 0 <= i < tail.len() && tail[i] == 0;
            assert((head + tail)[head.len() + i] == 0);
            let j = choose|j: int|
                0 <= j < peer_id.drop_first().len() && peer_id.drop_first()[j] == '\0';
            assert(peer_id[j + 1] == '\0');
        }
        if peer_id.contains('\0') {
            let j = choose|j: int| 0 <= j < peer_id.len() && peer_id[j] == '\0';
            if j > 0 {
                assert(peer_id.drop_first()[j - 1] == '\0');
            }
        }
        if (head + tail).contains(0) {
            let i = choose|i: int| 0 <= i < (head + tail).len() && (head + tail)[i] == 0;
            if i < head.len() {
                assert(head[i] == 0);
            } else {
                assert(tail[i - head.len()] == 0);
            }
        }
    }
}

/// A peer's C string is well formed: it ends in its only zero byte.
pub proof fn law_c_string_is_terminated(peer_id: Seq<char>)
    ensures
        peer_id_c_string(peer_id).last() == 0,
        peer_id_c_string(peer_id).drop_last() == peer_id_bytes(peer_id),
        !peer_id_bytes(peer_id).contains(0),
{
    assert(peer_id_c_string(peer_id).drop_last() =~= peer_id_bytes(peer_id));
}

/// An identifier without U+0000 survives the C boundary: its bytes are valid UTF-8, which is
/// read back as it is, and decode to the identifier.
pub proof fn law_peer_id_round_trip(peer_id: Seq<char>)
    requires
        !peer_id.contains('\0'),
    ensures
        valid_utf8(peer_id_bytes(peer_id)),
        decode_utf8(peer_id_bytes(peer_id)) == peer_id,
{
    law_only_nul_is_dropped(peer_id);
    encode_utf8_valid_utf8(peer_id);
    encode_utf8_decode_utf8(peer_id);
}

/// An identifier without U+0000 becomes its UTF-8 bytes and a terminator, and any other the
/// terminator alone.
pub proof fn law_peer_id_becomes_its_bytes(peer_id: &str, c_string: Vec<u8>)
    requires
        call_ensures(peer_id_cstring, (peer_id,), c_string),
    ensures
        !peer_id@.contains('\0') ==> c_string@ == encode_utf8(peer_id@).push(0),
        peer_id@.contains('\0') ==> c_string@ == seq![0u8],
{
    law_only_nul_is_dropped(peer_id@);
    assert(Seq::<u8>::empty().push(0u8) =~= seq![0u8]);
}

/// Identifiers without U+0000 can be told apart by their C strings.
pub proof fn law_peer_ids_stay_apart(a: &str, a_c_string: Vec<u8>, b: &str, b_c_string: Vec<u8>)
    requires
        call_ensures(peer_id_cstring, (a,), a_c_string),
        call_ensures(peer_id_cstring, (b,), b_c_string),
        !a@.contains('\0'),
        !b@.contains('\0'),
    ensures
        a_c_string@ == b_c_string@ <==> a@ == b@,
{
    law_peer_id_round_trip(a@);
    law_peer_id_round_trip(b@);
    law_c_string_is_terminated(a@);
    law_c_string_is_terminated(b@);
}

/// A C string is read as [`String::from_utf8_lossy`] reads its bytes, which is their decoding
/// where they are valid UTF-8, and a null pointer as the empty text.
pub proof fn law_c_string_is_read_as_it_is(bytes: Option<&[u8]>, text: String)
    requires
        call_ensures(cstr_to_string, (bytes,), text),
    ensures
        bytes is None ==> text@.len() == 0,
        bytes matches Some(b) ==> text@ == utf8_lossy(b@),
        bytes matches Some(b) ==> valid_utf8(b@) ==> text@ == decode_utf8(b@),
{
}

/// An identifier without U+0000 that is sent as a C string and read again is itself.
pub proof fn law_peer_id_is_read_back(
    peer_id: &str,
    c_string: Vec<u8>,
    bytes: &[u8],
    text: String,
)
    requires
        !peer_id@.contains('\0'),
        call_ensures(peer_id_cstring, (peer_id,), c_string),
        bytes@ == c_string@.drop_last(),
        call_ensures(cstr_to_string, (Some(bytes),), text),
    ensures
        c_string@.len() > 0 && c_string@.last() == 0,
        text@ == peer_id@,
{
    law_peer_id_round_trip(peer_id@);
    law_c_string_is_terminated(peer_id@);
}

} // verus!
