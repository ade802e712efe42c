//! The registers of the smart-battery stub.

use vstd::prelude::*;
use vstd::utf8::{decode_utf8, encode_utf8, is_ascii_chars_encode_utf8};

use crate::wire::{
    append_block, append_word, block_bytes, law_block_round_trip, overwritten, word_bytes,
    MAX_BLOCK_TEXT,
};

verus! {

/// ManufacturerAccess().
pub const CMD_MANUFACTURER_ACCESS: u8 = 0x03;

/// Temperature(), in tenths of a kelvin.
pub const CMD_TEMP: u8 = 0x08;

/// Voltage(), in millivolts.
pub const CMD_VOLTAGE: u8 = 0x09;

/// Current(), in milliamperes, signed.
pub const CMD_CURRENT: u8 = 0x0A;

/// RelativeStateOfCharge(), in percent.
pub const CMD_SOC: u8 = 0x0D;

/// RemainingCapacity(), in milliampere hours.
pub const CMD_REMAINING: u8 = 0x0F;

/// FullChargeCapacity(), in milliampere hours.
pub const CMD_FULL: u8 = 0x10;

/// BatteryStatus().
pub const CMD_STATUS: u8 = 0x16;

/// DesignCapacity(), in milliampere hours.
pub const CMD_DESIGN_CAPACITY: u8 = 0x18;

/// DesignVoltage(), in millivolts.
pub const CMD_DESIGN_VOLTAGE: u8 = 0x19;

/// SerialNumber().
pub const CMD_SERIAL: u8 = 0x1C;

/// ManufacturerName().
pub const CMD_MANUFACTURER: u8 = 0x1D;

/// DeviceName().
pub const CMD_DEVICE_NAME: u8 = 0x1E;

/// Answer to ManufacturerName().
pub const TEXT_MANUFACTURER: &'static str = "ESP32-C3";

/// Answer to DeviceName().
pub const TEXT_DEVICE_NAME: &'static str = "SmartBat-Stub";

/// The word that a register holds, for the registers that hold one: a battery at 12.6 V,
/// 0 A and 25 degrees Celsius, with 2500 mAh left of 5000 mAh.
pub open spec fn word_register(cmd: u8) -> Option<u16> {
    if cmd == CMD_MANUFACTURER_ACCESS {
        Some(0)
    } else if cmd == CMD_TEMP {
        Some(2982)
    } else if cmd == CMD_VOLTAGE {
        Some(12600)
    } else if cmd == CMD_CURRENT {
        Some(0)
    } else if cmd == CMD_SOC {
        Some(75)
    } else if cmd == CMD_REMAINING {
        Some(2500)
    } else if cmd == CMD_FULL {
        Some(5000)
    } else if cmd == CMD_STATUS {
        Some(0)
    } else if cmd == CMD_DESIGN_CAPACITY {
        Some(4000)
    } else if cmd == CMD_DESIGN_VOLTAGE {
        Some(12600)
    } else if cmd == CMD_SERIAL {
        Some(1)
    } else {
        None
    }
}

/// The text that a register holds, for the registers that hold one.
pub open spec fn text_register(cmd: u8) -> Option<Seq<char>> {
    if cmd == CMD_MANUFACTURER {
        Some("ESP32-C3"@)
    } else if cmd == CMD_DEVICE_NAME {
        Some("SmartBat-Stub"@)
    } else {
        None
    }
}

/// The answer to a read of `cmd`: a word least significant byte first, a text as a block, and a
/// single zero byte for a command that names no register.
pub open spec fn response(cmd: u8) -> Seq<u8> {
    match word_register(cmd) {
        Some(value) => word_bytes(value),
        None => match text_register(cmd) {
            Some(text) => block_bytes(text),
            None => seq![0u8],
        },
    }
}

/// The texts are plain ASCII and short enough for a block.
proof fn lemma_texts_fit()
    ensures
        TEXT_MANUFACTURER@ == "ESP32-C3"@,
        TEXT_DEVICE_NAME@ == "SmartBat-Stub"@,
        encode_utf8(TEXT_MANUFACTURER@).len() == 8,
        encode_utf8(TEXT_DEVICE_NAME@).len() == 13,
{
    reveal_strlit("ESP32-C3");
    reveal_strlit("SmartBat-Stub");
    is_ascii_chars_encode_utf8("ESP32-C3"@);
    is_ascii_chars_encode_utf8("SmartBat-Stub"@);
}

/// Writes the answer to a read of `cmd` to the front of `out` and returns its length.
/// Where `out` has no room for the answer it is left alone and 0 is returned.
pub fn smbus_battery_fill_response(cmd: u8, out: &mut [u8]) -> (written: usize)
    ensures
        response(cmd).len() <= old(out)@.len() ==> written == response(cmd).len() && final(out)@
            == overwritten(old(out)@, response(cmd)),
        response(cmd).len() > old(out)@.len() ==> written == 0 && final(out)@ == old(out)@,
        final(out)@.len() == old(out)@.len(),
        written > 0 ==> final(out)@.take(written as int) == response(cmd),
        forall|i: int| written <= i < old(out)@.len() ==> #[trigger] final(out)@[i] == old(out)@[i],
{
    proof {
        lemma_texts_fit();
    }
    match cmd {
        CMD_MANUFACTURER_ACCESS => append_word(out, 0x0000),
        CMD_TEMP => append_word(out, 2982),
        CMD_VOLTAGE => append_word(out, 12_600),
        CMD_CURRENT => append_word(out, 0),
        CMD_SOC => append_word(out, 75),
        CMD_REMAINING => append_word(out, 2500),
        CMD_FULL => append_word(out, 5000),
        CMD_STATUS => append_word(out, 0x0000),
        CMD_DESIGN_CAPACITY => append_word(out, 4000),
        CMD_DESIGN_VOLTAGE => append_word(out, 12_600),
        CMD_SERIAL => append_word(out, 0x0001),
        CMD_MANUFACTURER => append_block(out, TEXT_MANUFACTURER),
        CMD_DEVICE_NAME => append_block(out, TEXT_DEVICE_NAME),
        _ => {
            if out.is_empty() {
                0
            } else {
                out[0] = 0x00;
                assert(out@ =~= overwritten(old(out)@, response(cmd)));
                1
            }
        },
    }
}

/// No answer is empty, and each fits a block of the longest text allowed.
pub proof fn law_response_length(cmd: u8)
    ensures
        1 <= response(cmd).len() <= 1 + MAX_BLOCK_TEXT,
        text_register(cmd) is Some ==> response(cmd)[0] == response(cmd).len() - 1,
{
    lemma_texts_fit();
}

/// A register of a word is answered with the remainder of the word modulo 256 and then its quotient
/// by 256, a register of a text with the length of the text and then the text, and any other
/// command with a single zero byte.
pub proof fn law_answer_layout(cmd: u8)
    ensures
        word_register(cmd) matches Some(value) ==> response(cmd).len() == 2 && response(cmd)[0]
            == value % 256 && response(cmd)[1] == value / 256,
        text_register(cmd) matches Some(text) ==> response(cmd)[0] == response(cmd).len() - 1
            && decode_utf8(response(cmd).skip(1)) == text,
        word_register(cmd) is None && text_register(cmd) is None ==> response(cmd).len() == 1
            && response(cmd)[0] == 0,
        !(word_register(cmd) is Some && text_register(cmd) is Some),
{
    lemma_texts_fit();
    if text_register(cmd) is Some {
        law_block_round_trip(text_register(cmd)->0);
    }
}

} // verus!
