use rendezvous::token::{room_token_for, RoomToken, ROOM_TOKEN_LEN};

/// The SHA-512 digest of the empty input, from the function's published test
/// vectors.
const EMPTY_DIGEST: [u8; 64] = [
    0xcf, 0x83, 0xe1, 0x35, 0x7e, 0xef, 0xb8, 0xbd, 0xf1, 0x54, 0x28, 0x50, 0xd6, 0x6d, 0x80,
    0x07, 0xd6, 0x20, 0xe4, 0x05, 0x0b, 0x57, 0x15, 0xdc, 0x83, 0xf4, 0xa9, 0x21, 0xd3, 0x6c,
    0xe9, 0xce, 0x47, 0xd0, 0xd1, 0x3c, 0x5d, 0x85, 0xf2, 0xb0, 0xff, 0x83, 0x18, 0xd2, 0x87,
    0x7e, 0xec, 0x2f, 0x63, 0xb9, 0x31, 0xbd, 0x47, 0x41, 0x7a, 0x81, 0xa5, 0x38, 0x32, 0x7a,
    0xf9, 0x27, 0xda, 0x3e,
];

#[test]
fn room_token_is_the_sha512_digest() {
    let token = room_token_for(&Vec::new());
    assert_eq!(token.as_bytes(), &EMPTY_DIGEST.to_vec());
}

#[test]
fn room_token_has_token_width() {
    let token = room_token_for(&b"room".to_vec());
    assert_eq!(token.as_bytes().len(), ROOM_TOKEN_LEN);
    assert_ne!(token.as_bytes().as_slice(), b"room");
}

#[test]
fn same_room_same_token_different_room_different_token() {
    let a = room_token_for(&b"room".to_vec());
    let b = room_token_for(&b"room".to_vec());
    let c = room_token_for(&b"moor".to_vec());
    assert!(a.eq_token(&b));
    assert!(!a.eq_token(&c));
}

#[test]
fn digest_bytes_form_a_token() {
    let token = room_token_for(&b"room".to_vec());
    let reformed = RoomToken::from_bytes(token.as_bytes().clone());
    assert!(reformed.expect("64 bytes").eq_token(&token));
}
