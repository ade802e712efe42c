use smbus_firmware::bridge::{
    ExportAction, ExportEvent, ExportNote, SensorAction, SensorData, SensorEvent, SensorNote,
    DISCARD_LEN, EXPORT_SLAVE_ADDR,
};
use smbus_firmware::bus::{CommandKind, I2cError};

const READ: ExportEvent = ExportEvent::Listened(Ok(CommandKind::Read));

#[test]
fn export_address_and_room() {
    assert_eq!(EXPORT_SLAVE_ADDR, 0x42);
    assert_eq!(DISCARD_LEN, 16);
}

#[test]
fn sensor_is_read_at_the_start_and_after_each_pause() {
    let mut data = SensorData::new();
    let ask = SensorAction::WriteRead { addr: 0x48, reg: 0x00 };
    assert_eq!(data.sensor_master_step(SensorEvent::Started), (ask, SensorNote::Nothing));
    assert_eq!(data.sensor_master_step(SensorEvent::Waited), (ask, SensorNote::Nothing));
}

#[test]
fn export_gives_zeros_before_the_first_sample() {
    let mut data = SensorData::new();
    data.sensor_master_step(SensorEvent::Started);
    data.sensor_master_step(SensorEvent::Sampled(Err(I2cError::Nack)));
    assert_eq!(data.export_slave_step(READ), (ExportAction::Send([0, 0]), ExportNote::Nothing));
}

#[test]
fn export_gives_the_latest_sample() {
    let mut data = SensorData::new();
    assert_eq!(
        data.sensor_master_step(SensorEvent::Sampled(Ok([0x19, 0x80]))),
        (SensorAction::WaitMs(500), SensorNote::Sample([0x19, 0x80]))
    );
    assert_eq!(data.export_slave_step(READ).0, ExportAction::Send([0x19, 0x80]));
    data.sensor_master_step(SensorEvent::Sampled(Ok([0x1A, 0x00])));
    assert_eq!(data.export_slave_step(READ).0, ExportAction::Send([0x1A, 0x00]));
    assert_eq!(
        data.sensor_master_step(SensorEvent::Sampled(Err(I2cError::Arbitration))),
        (SensorAction::WaitMs(500), SensorNote::Failed(I2cError::Arbitration))
    );
    assert_eq!(data.export_slave_step(READ).0, ExportAction::Send([0x1A, 0x00]));
}

#[test]
fn export_listens_and_ignores_writes() {
    let data = SensorData::new();
    let idle = (ExportAction::Listen, ExportNote::Nothing);
    assert_eq!(data.export_slave_step(ExportEvent::Started), idle);
    assert_eq!(data.export_slave_step(ExportEvent::Waited), idle);
    assert_eq!(
        data.export_slave_step(ExportEvent::Listened(Ok(CommandKind::Write))),
        (ExportAction::Discard, ExportNote::Nothing)
    );
    assert_eq!(
        data.export_slave_step(ExportEvent::Received(Ok(3))),
        (ExportAction::Listen, ExportNote::Ignored(3))
    );
    assert_eq!(
        data.export_slave_step(ExportEvent::Received(Err(I2cError::Overrun))),
        (ExportAction::Listen, ExportNote::ReceiveFailed(I2cError::Overrun))
    );
}

#[test]
fn export_reports_how_an_answer_ended() {
    let data = SensorData::new();
    assert_eq!(
        data.export_slave_step(ExportEvent::Sent { payload: [1, 2], result: Ok(2) }),
        (ExportAction::Listen, ExportNote::Sent { len: 2, payload: [1, 2] })
    );
    assert_eq!(
        data.export_slave_step(ExportEvent::Sent { payload: [1, 2], result: Err(I2cError::Bus) }),
        (ExportAction::Listen, ExportNote::SendFailed(I2cError::Bus))
    );
}

#[test]
fn export_pauses_after_listening_failed() {
    let data = SensorData::new();
    assert_eq!(
        data.export_slave_step(ExportEvent::Listened(Err(I2cError::Timeout))),
        (ExportAction::WaitMs(100), ExportNote::ListenFailed(I2cError::Timeout))
    );
}
