use wasm2::region::{u32_from_le, u32_to_le};

#[test]
fn word_encoding_is_little_endian() {
    let b = u32_to_le(0x0403_0201);
    assert_eq!(b, vec![0x01, 0x02, 0x03, 0x04]);
}

#[test]
fn word_round_trip() {
    for x in [0u32, 1, 255, 256, 0xDEAD_BEEF, u32::MAX] {
        assert_eq!(u32_from_le(&u32_to_le(x)), x);
    }
}

#[test]
fn word_decoding_matches_manual_bytes() {
    assert_eq!(u32_from_le(&vec![0xFF, 0x00, 0x00, 0x00]), 255);
    assert_eq!(u32_from_le(&vec![0x00, 0x00, 0x00, 0x80]), 0x8000_0000);
}
