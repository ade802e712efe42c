use smbus_firmware::battery::smbus_battery_fill_response;

fn answer(cmd: u8) -> Vec<u8> {
    let mut out = [0xEEu8; 36];
    let len = smbus_battery_fill_response(cmd, &mut out);
    assert!(out[len..].iter().all(|b| *b == 0xEE));
    out[..len].to_vec()
}

fn word(cmd: u8) -> u16 {
    let bytes = answer(cmd);
    assert_eq!(bytes.len(), 2);
    u16::from_le_bytes([bytes[0], bytes[1]])
}

#[test]
fn word_registers_hold_the_stub_values() {
    assert_eq!(word(0x03), 0);
    assert_eq!(word(0x08), 2982);
    assert_eq!(word(0x09), 12_600);
    assert_eq!(word(0x0A), 0);
    assert_eq!(word(0x0D), 75);
    assert_eq!(word(0x0F), 2500);
    assert_eq!(word(0x10), 5000);
    assert_eq!(word(0x16), 0);
    assert_eq!(word(0x18), 4000);
    assert_eq!(word(0x19), 12_600);
    assert_eq!(word(0x1C), 1);
}

#[test]
fn names_are_blocks() {
    assert_eq!(answer(0x1D), b"\x08ESP32-C3".to_vec());
    assert_eq!(answer(0x1E), b"\x0dSmartBat-Stub".to_vec());
}

#[test]
fn unknown_command_gives_a_zero_byte() {
    let known: [u8; 13] = [
        0x03, 0x08, 0x09, 0x0A, 0x0D, 0x0F, 0x10, 0x16, 0x18, 0x19, 0x1C, 0x1D, 0x1E,
    ];
    for cmd in 0..=255u8 {
        if !known.contains(&cmd) {
            assert_eq!(answer(cmd), vec![0x00]);
        }
    }
}

#[test]
fn answers_that_do_not_fit_are_not_written() {
    let mut none: [u8; 0] = [];
    assert_eq!(smbus_battery_fill_response(0x00, &mut none), 0);
    let mut one = [0xEEu8; 1];
    assert_eq!(smbus_battery_fill_response(0x09, &mut one), 0);
    assert_eq!(one, [0xEE]);
    let mut eight = [0xEEu8; 8];
    assert_eq!(smbus_battery_fill_response(0x1D, &mut eight), 0);
    assert_eq!(eight, [0xEE; 8]);
    let mut nine = [0xEEu8; 9];
    assert_eq!(smbus_battery_fill_response(0x1D, &mut nine), 9);
    assert_eq!(&nine[..], b"\x08ESP32-C3");
}

#[test]
fn every_answer_fits_a_block() {
    for cmd in 0..=255u8 {
        let len = answer(cmd).len();
        assert!(1 <= len && len <= 32);
    }
}
