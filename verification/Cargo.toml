[package]
name = "esp32c3_devkit_demo"
version = "0.1.0"
edition = "2021"
publish = false

[dependencies]
embassy-embedded-hal = "=0.6.0"
embassy-futures = "=0.1.2"
embassy-sync = "=0.8.0"
embassy-time = { version = "=0.5.1", features = ["std"] }
embedded-hal = "=1.0.0"
icm42670 = "=0.2.0"
imu-fusion = "=0.2.6"
log = "=0.4.34"
micromath = "=2.1.0"
shtcx = "=1.0.0"
smart-leds = "=0.4.0"
static_cell = "=2.1.1"
thiserror = "=2.0.21"
trouble-host = { version = "=0.8.0", features = ["client-att-table-size-128"] }
