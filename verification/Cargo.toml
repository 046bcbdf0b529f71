[package]
name = "rmk"
version = "0.1.0"
edition = "2021"
publish = false

[dependencies]
defmt = "=0.3.101"
embassy-executor = "=0.5.1"
embassy-futures = "=0.1.2"
embassy-nrf = { version = "=0.1.0", features = ["nrf52840"] }
embassy-time = { version = "=0.3.2", features = ["std"] }
embassy-usb = "=0.1.0"
embedded-hal = "=1.0.0"
embedded-storage-async = "=0.4.2"
hash32 = "=0.3.1"
heapless = "=0.8.0"
nrf-softdevice = { version = "=0.1.0", features = ["nrf52840", "s140", "ble-peripheral", "ble-gatt-server", "ble-sec"] }
once_cell = { version = "=1.21.4", default-features = false, features = ["critical-section"] }
sequential-storage = "=2.0.2"
static_cell = "=2.1.1"
