[package]
name = "mesozoic"
version = "0.1.0"
edition = "2021"
publish = false

[dependencies]
arrayvec = "0.7"
cortex-m = "0.7"
defmt = "0.3"
defmt-rtt = "0.4"
display-interface-spi = "0.4"
embassy-executor = { version = "0.5", features = ["arch-std", "executor-thread"] }
embassy-futures = "0.1"
embassy-nrf = { version = "0.1", features = ["nrf52832", "gpiote", "time-driver-rtc1"] }
embassy-sync = "0.5"
embassy-time = "0.3"
embedded-graphics = "0.8"
embedded-graphics-simulator = "0.6"
embedded-text = "0.7"
mipidsi = "0.7"
nrf-softdevice = { version = "*", features = ["s132", "nrf52832", "ble-peripheral", "ble-central", "ble-gatt-server", "ble-gatt-client", "ble-sec"] }
panic-probe = "0.3"
static_cell = "2"
