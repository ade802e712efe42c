use smbus_firmware::bus::{CommandKind, I2cError};
use smbus_firmware::reader::{
    battery_sample, BatteryReader, BatterySample, ReaderAction, ReaderEvent, ReaderNote,
};
use smbus_firmware::slave::{Slave, SlaveAction, SlaveEvent};

const REGISTERS: [u8; 7] = [0x09, 0x0A, 0x08, 0x0D, 0x0F, 0x10, 0x1C];

fn ask(reg: u8) -> ReaderAction {
    ReaderAction::Write { addr: 0x0B, reg }
}

#[test]
fn reader_lets_the_battery_boot() {
    let mut reader = BatteryReader::new();
    let next = reader.battery_reader_step(ReaderEvent::Started);
    assert_eq!(next, (ReaderAction::WaitMs(200), ReaderNote::Nothing));
}

#[test]
fn word_is_written_settled_and_read() {
    let mut reader = BatteryReader::new();
    assert_eq!(reader.battery_reader_step(ReaderEvent::Rested), (ask(0x09), ReaderNote::Nothing));
    assert_eq!(
        reader.battery_reader_step(ReaderEvent::Written(Ok(()))),
        (ReaderAction::WaitUs(500), ReaderNote::Nothing)
    );
    assert_eq!(
        reader.battery_reader_step(ReaderEvent::Settled),
        (ReaderAction::Read { addr: 0x0B }, ReaderNote::Nothing)
    );
    assert_eq!(
        reader.battery_reader_step(ReaderEvent::ReadBack(Ok([0x38, 0x31]))),
        (ask(0x0A), ReaderNote::Nothing)
    );
}

fn round(reader: &mut BatteryReader, words: [u16; 7]) -> (ReaderAction, ReaderNote) {
    let mut next = reader.battery_reader_step(ReaderEvent::Rested);
    for i in 0..7 {
        assert_eq!(next, (ask(REGISTERS[i]), ReaderNote::Nothing));
        reader.battery_reader_step(ReaderEvent::Written(Ok(())));
        reader.battery_reader_step(ReaderEvent::Settled);
        next = reader.battery_reader_step(ReaderEvent::ReadBack(Ok(words[i].to_le_bytes())));
    }
    next
}

#[test]
fn round_ends_with_a_sample() {
    let mut reader = BatteryReader::new();
    let words = [11_100, 0xFF9C, 2900, 42, 1800, 4300, 0xBEEF];
    let sample = BatterySample {
        voltage_mv: 11_100,
        current_ma: -100,
        temp_c: 169,
        soc_percent: 42,
        remaining_mah: 1800,
        full_mah: 4300,
        serial: 0xBEEF,
    };
    let done = (ReaderAction::WaitMs(1000), ReaderNote::Battery(sample));
    assert_eq!(round(&mut reader, words), done);
    assert_eq!(round(&mut reader, words), done);
}

#[test]
fn failure_ends_the_round() {
    let mut reader = BatteryReader::new();
    reader.battery_reader_step(ReaderEvent::Rested);
    reader.battery_reader_step(ReaderEvent::ReadBack(Ok([1, 2])));
    assert_eq!(
        reader.battery_reader_step(ReaderEvent::Written(Err(I2cError::Nack))),
        (ReaderAction::WaitMs(1000), ReaderNote::Failed(I2cError::Nack))
    );
    reader.battery_reader_step(ReaderEvent::Rested);
    reader.battery_reader_step(ReaderEvent::ReadBack(Ok([1, 2])));
    assert_eq!(
        reader.battery_reader_step(ReaderEvent::ReadBack(Err(I2cError::Timeout))),
        (ReaderAction::WaitMs(1000), ReaderNote::Failed(I2cError::Timeout))
    );
    let (_, note) = round(&mut reader, [1, 2, 2731, 4, 5, 6, 7]);
    assert_eq!(
        note,
        ReaderNote::Battery(BatterySample {
            voltage_mv: 1,
            current_ma: 2,
            temp_c: 0,
            soc_percent: 4,
            remaining_mah: 5,
            full_mah: 6,
            serial: 7,
        })
    );
}

#[test]
fn current_is_signed() {
    assert_eq!(battery_sample(&[0, 0x7FFF, 0, 0, 0, 0, 0]).current_ma, 32767);
    assert_eq!(battery_sample(&[0, 0x8000, 0, 0, 0, 0, 0]).current_ma, -32768);
    assert_eq!(battery_sample(&[0, 0xFFFF, 0, 0, 0, 0, 0]).current_ma, -1);
}

#[test]
fn temperature_is_shifted_and_wraps() {
    assert_eq!(battery_sample(&[0, 0, 0, 0, 0, 0, 0]).temp_c, -2731);
    assert_eq!(battery_sample(&[0, 0, 2982, 0, 0, 0, 0]).temp_c, 251);
    assert_eq!(battery_sample(&[0, 0, 35498, 0, 0, 0, 0]).temp_c, 32767);
    assert_eq!(battery_sample(&[0, 0, 35499, 0, 0, 0, 0]).temp_c, -32768);
    assert_eq!(battery_sample(&[0, 0, 65535, 0, 0, 0, 0]).temp_c, -2732);
}

#[test]
fn state_of_charge_keeps_the_low_byte() {
    assert_eq!(battery_sample(&[0, 0, 0, 100, 0, 0, 0]).soc_percent, 100);
    assert_eq!(battery_sample(&[0, 0, 0, 255, 0, 0, 0]).soc_percent, 255);
    assert_eq!(battery_sample(&[0, 0, 0, 0x0164, 0, 0, 0]).soc_percent, 100);
}

fn parts(temp_c: i16) -> (i16, u8) {
    BatterySample {
        voltage_mv: 0,
        current_ma: 0,
        temp_c,
        soc_percent: 0,
        remaining_mah: 0,
        full_mah: 0,
        serial: 0,
    }
    .temp_parts()
}

#[test]
fn temperature_splits_toward_zero() {
    assert_eq!(parts(251), (25, 1));
    assert_eq!(parts(0), (0, 0));
    assert_eq!(parts(9), (0, 9));
    assert_eq!(parts(-9), (0, 9));
    assert_eq!(parts(-10), (-1, 0));
    assert_eq!(parts(-57), (-5, 7));
    assert_eq!(parts(32767), (3276, 7));
    assert_eq!(parts(-32768), (-3276, 8));
    for temp in [-32768i16, -2731, -57, -1, 0, 1, 250, 32767] {
        assert_eq!(parts(temp).0, temp / 10);
        assert_eq!(parts(temp).1 as u16, temp.unsigned_abs() % 10);
    }
}

#[test]
fn reader_polls_the_battery_slave() {
    let mut reader = BatteryReader::new();
    let mut slave = Slave::new();
    let mut event = ReaderEvent::Started;
    let sample = loop {
        let (action, note) = reader.battery_reader_step(event);
        if let ReaderNote::Battery(sample) = note {
            break sample;
        }
        event = match action {
            ReaderAction::WaitMs(_) => ReaderEvent::Rested,
            ReaderAction::WaitUs(_) => ReaderEvent::Settled,
            ReaderAction::Write { reg, .. } => {
                slave.i2c_slave_step(SlaveEvent::Listened(Ok(CommandKind::Write)));
                slave.i2c_slave_step(SlaveEvent::Received { result: Ok(1), buf: [reg, 0, 0, 0] });
                ReaderEvent::Written(Ok(()))
            }
            ReaderAction::Read { .. } => {
                let (answer, _) =
                    slave.i2c_slave_step(SlaveEvent::Listened(Ok(CommandKind::Read)));
                match answer {
                    SlaveAction::Send { reply, .. } => {
                        let bytes = reply.bytes();
                        ReaderEvent::ReadBack(Ok([bytes[0], bytes[1]]))
                    }
                    _ => panic!("a read must be answered"),
                }
            }
        };
    };
    assert_eq!(
        sample,
        BatterySample {
            voltage_mv: 12_600,
            current_ma: 0,
            temp_c: 251,
            soc_percent: 75,
            remaining_mah: 2500,
            full_mah: 5000,
            serial: 1,
        }
    );
}
