[package]
name = "smbus_firmware"
version = "0.1.0"
edition = "2021"
publish = false

[dependencies]
defmt = "=1.2.0"
defmt-rtt = "=1.3.1"
embassy-executor = { version = "=0.10.0", features = ["platform-std", "executor-thread"] }
embassy-stm32 = { version = "=0.6.0", features = ["stm32f103c8", "defmt", "time-driver-any", "memory-x"] }
embassy-sync = { version = "=0.8.0", features = ["std"] }
embassy-time = "=0.5.1"
panic-probe = "=1.0.0"
