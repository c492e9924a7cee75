[package]
name = "thingy53-hci-usb"
version = "0.1.0"
edition = "2021"
publish = false

[dependencies]
bt-hci = "=0.8.1"
defmt = "=1.2.0"
defmt-rtt = "=1.3.1"
embassy-executor = { version = "=0.9.1", features = ["arch-std", "executor-thread"] }
embassy-futures = "=0.1.2"
embassy-nrf = { version = "=0.9.0", features = ["nrf5340-app-s", "time-driver-rtc1", "gpiote", "unstable-pac"] }
embassy-sync = "=0.7.2"
embassy-time = "=0.5.1"
embassy-usb = "=0.5.1"
nrf-mpsl = "=0.3.0"
nrf-sdc = "=0.4.0"
panic-probe = "=1.0.0"
static_cell = "=2.1.1"
