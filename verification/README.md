# smbus_firmware

SMBus firmwares for an STM32F103 board, with their decisions written in Verus and proved.

| Part | What it does |
| --- | --- |
| `src/wire.rs` | words and blocks as bytes |
| `src/battery.rs` | the registers of a smart-battery stub |
| `src/bus.rs` | errors and requests that an I2C peripheral reports |
| `src/slave.rs` | the slave that plays the battery (address 0x0B) |
| `src/reader.rs` | the master that polls a battery |
| `src/bridge.rs` | sensor (0x48) on one bus, its latest sample (0x42) on another |
| `src/blinker.rs` | the lamp |
| `app/` | pins, timers, I2C transfers and the log |

A firmware is a loop: a step function takes in an event and returns the next action and what to
log; `app/` performs the action and comes back with the event that it ended in. The step functions
are specified by models (`SlaveModel`, `ReaderModel`, ...), and the proof functions whose names
begin with `law_` state what holds over whole sequences of events.

`Cargo.toml` selects the hosted executor, so that everything builds on a workstation. For the board,
select `platform-cortex-m` of `embassy-executor` instead and drop `std` of `embassy-sync`.
