use smbus_firmware::bus::{CommandKind, I2cError};
use smbus_firmware::slave::{Reply, Slave, SlaveAction, SlaveEvent, SlaveNote, SLAVE_ADDR};

fn write(cmd: u8) -> SlaveEvent {
    SlaveEvent::Received { result: Ok(1), buf: [cmd, 0, 0, 0] }
}

fn read(slave: &mut Slave) -> (u8, Vec<u8>) {
    let (action, note) = slave.i2c_slave_step(SlaveEvent::Listened(Ok(CommandKind::Read)));
    assert_eq!(note, SlaveNote::Nothing);
    match action {
        SlaveAction::Send { cmd, reply } => (cmd, reply.bytes().to_vec()),
        _ => panic!("a read must be answered"),
    }
}

fn listens(action: &SlaveAction) -> bool {
    matches!(action, SlaveAction::Listen)
}

#[test]
fn battery_address() {
    assert_eq!(SLAVE_ADDR, 11);
}

#[test]
fn slave_listens_at_the_start() {
    let mut slave = Slave::new();
    let (action, note) = slave.i2c_slave_step(SlaveEvent::Started);
    assert!(listens(&action));
    assert_eq!(note, SlaveNote::Nothing);
}

#[test]
fn written_command_is_answered() {
    let mut slave = Slave::new();
    let (action, note) = slave.i2c_slave_step(SlaveEvent::Listened(Ok(CommandKind::Write)));
    assert!(matches!(action, SlaveAction::Receive));
    assert_eq!(note, SlaveNote::Nothing);
    let (action, note) = slave.i2c_slave_step(write(0x09));
    assert!(listens(&action));
    assert_eq!(note, SlaveNote::Command(0x09));
    assert_eq!(read(&mut slave), (0x09, vec![0x38, 0x31]));
    let (action, note) = slave.i2c_slave_step(SlaveEvent::Sent { cmd: 0x09, result: Ok(2) });
    assert!(listens(&action));
    assert_eq!(note, SlaveNote::Sent { cmd: 0x09, len: 2 });
}

#[test]
fn read_uses_the_command_up() {
    let mut slave = Slave::new();
    slave.i2c_slave_step(write(0x1D));
    assert_eq!(read(&mut slave), (0x1D, b"\x08ESP32-C3".to_vec()));
    assert_eq!(read(&mut slave), (0x00, vec![0x00]));
}

#[test]
fn read_before_any_command_gives_a_zero_byte() {
    let mut slave = Slave::new();
    assert_eq!(read(&mut slave), (0x00, vec![0x00]));
}

#[test]
fn latest_command_counts() {
    let mut slave = Slave::new();
    slave.i2c_slave_step(write(0x09));
    slave.i2c_slave_step(SlaveEvent::Received { result: Ok(3), buf: [0x0D, 0x09, 0x09, 0] });
    assert_eq!(read(&mut slave), (0x0D, vec![75, 0]));
}

#[test]
fn failures_and_empty_writes_keep_the_command() {
    let mut slave = Slave::new();
    slave.i2c_slave_step(write(0x10));
    let empty = SlaveEvent::Received { result: Ok(0), buf: [0x09, 0, 0, 0] };
    let (action, note) = slave.i2c_slave_step(empty);
    assert!(listens(&action));
    assert_eq!(note, SlaveNote::Nothing);
    let failed = SlaveEvent::Received { result: Err(I2cError::Overrun), buf: [0x09, 0, 0, 0] };
    let (action, note) = slave.i2c_slave_step(failed);
    assert!(listens(&action));
    assert_eq!(note, SlaveNote::ReceiveFailed(I2cError::Overrun));
    let (action, note) = slave.i2c_slave_step(SlaveEvent::Listened(Err(I2cError::Bus)));
    assert!(matches!(action, SlaveAction::WaitMs(20)));
    assert_eq!(note, SlaveNote::ListenFailed(I2cError::Bus));
    let (action, _) = slave.i2c_slave_step(SlaveEvent::Waited);
    assert!(listens(&action));
    assert_eq!(read(&mut slave), (0x10, vec![0x88, 0x13]));
}

#[test]
fn timeout_while_listening_is_idleness() {
    let mut slave = Slave::new();
    let timeout = SlaveEvent::Listened(Err(I2cError::Timeout));
    let (action, note) = slave.i2c_slave_step(timeout);
    assert!(matches!(action, SlaveAction::WaitMs(20)));
    assert_eq!(note, SlaveNote::Idle { last_cmd: 0 });
    slave.i2c_slave_step(write(0x0F));
    assert_eq!(read(&mut slave).0, 0x0F);
    let (_, note) = slave.i2c_slave_step(timeout);
    assert_eq!(note, SlaveNote::Idle { last_cmd: 0x0F });
}

#[test]
fn aborted_and_failed_answers_are_told_apart() {
    let mut slave = Slave::new();
    let (action, note) = slave.i2c_slave_step(SlaveEvent::Sent { cmd: 0x08, result: Ok(0) });
    assert!(listens(&action));
    assert_eq!(note, SlaveNote::Aborted { cmd: 0x08 });
    let failed = SlaveEvent::Sent { cmd: 0x08, result: Err(I2cError::Nack) };
    let (action, note) = slave.i2c_slave_step(failed);
    assert!(listens(&action));
    assert_eq!(note, SlaveNote::SendFailed(I2cError::Nack));
}

#[test]
fn reply_holds_the_answer() {
    assert_eq!(Reply::to(0x08).bytes(), &[0xA6, 0x0B]);
    assert_eq!(Reply::to(0xFF).bytes(), &[0x00]);
    assert_eq!(Reply::to(0x1E).bytes(), b"\x0dSmartBat-Stub");
}
