//! What the I2C peripheral reports: its errors and the requests of a remote master.

use vstd::prelude::*;

verus! {

/// Why an I2C transfer failed.
#[derive(Clone, Copy, Debug, PartialEq, Eq, Structural)]
pub enum I2cError {
    /// A misplaced start or stop condition.
    Bus,
    /// Another master won the bus.
    Arbitration,
    /// The address or a data byte was not acknowledged.
    Nack,
    /// The transfer took too long.
    Timeout,
    /// The packet error code did not match.
    Crc,
    /// A byte was lost because it was not fetched in time.
    Overrun,
    /// A transfer of no bytes was asked for.
    ZeroLengthTransfer,
}

/// What a remote master wants of this node when it is acting as a slave.
#[derive(Clone, Copy, Debug, PartialEq, Eq, Structural)]
pub enum CommandKind {
    /// The master is about to send bytes.
    Write,
    /// The master wants bytes.
    Read,
}

/// The short name of an error.
pub open spec fn error_name(e: I2cError) -> Seq<char> {
    match e {
        I2cError::Bus => "bus"@,
        I2cError::Arbitration => "arbitration"@,
        I2cError::Nack => "nack"@,
        I2cError::Timeout => "timeout"@,
        I2cError::Crc => "crc"@,
        I2cError::Overrun => "overrun"@,
        I2cError::ZeroLengthTransfer => "zero-length"@,
    }
}

/// The short name of an error, for the log.
pub fn i2c_err(e: I2cError) -> (name: &'static str)
    ensures
        name@ == error_name(e),
{
    match e {
        I2cError::Bus => "bus",
        I2cError::Arbitration => "arbitration",
        I2cError::Nack => "nack",
        I2cError::Timeout => "timeout",
        I2cError::Crc => "crc",
        I2cError::Overrun => "overrun",
        I2cError::ZeroLengthTransfer => "zero-length",
    }
}

/// The log tells any two errors apart.
pub proof fn law_error_names_differ(a: I2cError, b: I2cError)
    requires
        error_name(a) == error_name(b),
    ensures
        a == b,
{
    reveal_strlit("bus");
    reveal_strlit("arbitration");
    reveal_strlit("nack");
    reveal_strlit("timeout");
    reveal_strlit("crc");
    reveal_strlit("overrun");
    reveal_strlit("zero-length");
    assert("bus"@[0] == 'b' && "arbitration"@[0] == 'a' && "nack"@[0] == 'n' && "timeout"@[0] == 't'
        && "crc"@[0] == 'c' && "overrun"@[0] == 'o' && "zero-length"@[0] == 'z');
}

} // verus!
