[package]
name = "nrf-softdevice"
version = "0.1.0"
edition = "2021"
publish = false

[dependencies]
cortex-m = "*"
defmt = "*"
embassy-futures = "*"
embassy-sync = "*"
futures = { version = "*", default-features = false }
static_cell = "*"
