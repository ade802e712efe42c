use smbus_firmware::wire::{append_block, append_word, word_from_bytes, MAX_BLOCK_TEXT};

#[test]
fn word_goes_out_least_significant_byte_first() {
    let mut out = [0xEEu8; 4];
    assert_eq!(append_word(&mut out, 0x1234), 2);
    assert_eq!(out, [0x34, 0x12, 0xEE, 0xEE]);
}

#[test]
fn word_fills_a_buffer_of_its_size() {
    let mut out = [0u8; 2];
    assert_eq!(append_word(&mut out, 12_600), 2);
    assert_eq!(out, [0x38, 0x31]);
}

#[test]
fn word_needs_two_bytes() {
    let mut one = [0xEEu8; 1];
    assert_eq!(append_word(&mut one, 0x1234), 0);
    assert_eq!(one, [0xEE]);
    let mut none: [u8; 0] = [];
    assert_eq!(append_word(&mut none, 0x1234), 0);
}

#[test]
fn word_read_back_is_the_word_written() {
    for value in [0u16, 1, 0xFF, 0x100, 0x1234, 0x8000, 0xFFFF] {
        let mut out = [0u8; 2];
        append_word(&mut out, value);
        assert_eq!(word_from_bytes(out), value);
    }
    assert_eq!(word_from_bytes([0x34, 0x12]), 0x1234);
}

#[test]
fn block_starts_with_its_length() {
    let mut out = [0xEEu8; 6];
    assert_eq!(append_block(&mut out, "abc"), 4);
    assert_eq!(out, [3, b'a', b'b', b'c', 0xEE, 0xEE]);
}

#[test]
fn block_length_counts_bytes() {
    let mut out = [0u8; 4];
    assert_eq!(append_block(&mut out, "\u{b0}C"), 4);
    assert_eq!(out, [3, 0xC2, 0xB0, b'C']);
}

#[test]
fn empty_block_is_a_zero_length() {
    let mut out = [0xEEu8; 2];
    assert_eq!(append_block(&mut out, ""), 1);
    assert_eq!(out, [0, 0xEE]);
}

#[test]
fn block_needs_room_for_text_and_length() {
    let mut out = [0xEEu8; 3];
    assert_eq!(append_block(&mut out, "abc"), 0);
    assert_eq!(out, [0xEE; 3]);
    let mut none: [u8; 0] = [];
    assert_eq!(append_block(&mut none, ""), 0);
}

#[test]
fn block_text_is_limited() {
    let longest = "x".repeat(MAX_BLOCK_TEXT);
    let mut out = [0u8; 64];
    assert_eq!(append_block(&mut out, &longest), 32);
    assert_eq!(out[0], 31);
    assert_eq!(&out[1..32], longest.as_bytes());
    assert_eq!(out[32], 0);

    let too_long = "x".repeat(MAX_BLOCK_TEXT + 1);
    let mut untouched = [0xEEu8; 64];
    assert_eq!(append_block(&mut untouched, &too_long), 0);
    assert_eq!(untouched, [0xEE; 64]);
}
