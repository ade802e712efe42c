//! The decisions of a small family of SMBus firmwares.
//!
//! - [`slave`] plays a smart battery: it answers the commands of a master from the registers in
//!   [`battery`].
//! - [`reader`] is the other end: a master that polls a smart battery and decodes what it says.
//! - [`bridge`] samples a sensor on one bus and hands the latest sample out on another.
//! - [`blinker`] shows that the firmware is alive.
//!
//! Each firmware is a loop around a step function: the step takes in what has just happened on the
//! bus or to the timer and says what to do next. The peripherals themselves stay outside. [`wire`]
//! holds the byte layout that slave and reader share, [`bus`] what a peripheral reports.

pub mod battery;
pub mod blinker;
pub mod bridge;
pub mod bus;
pub mod reader;
pub mod slave;
pub mod wire;
