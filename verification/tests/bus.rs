use smbus_firmware::bus::{i2c_err, I2cError};

#[test]
fn errors_have_short_names() {
    assert_eq!(i2c_err(I2cError::Bus), "bus");
    assert_eq!(i2c_err(I2cError::Arbitration), "arbitration");
    assert_eq!(i2c_err(I2cError::Nack), "nack");
    assert_eq!(i2c_err(I2cError::Timeout), "timeout");
    assert_eq!(i2c_err(I2cError::Crc), "crc");
    assert_eq!(i2c_err(I2cError::Overrun), "overrun");
    assert_eq!(i2c_err(I2cError::ZeroLengthTransfer), "zero-length");
}

#[test]
fn error_names_differ() {
    let all = [
        I2cError::Bus,
        I2cError::Arbitration,
        I2cError::Nack,
        I2cError::Timeout,
        I2cError::Crc,
        I2cError::Overrun,
        I2cError::ZeroLengthTransfer,
    ];
    for a in all {
        for b in all {
            assert_eq!(a == b, i2c_err(a) == i2c_err(b));
        }
    }
}
