[package]
name = "rp-keyer"
version = "0.1.0"
edition = "2021"
publish = false

[dependencies]
fixed = "1"
heapless = "0.8"
postcard = "1"
cortex-m = "0.7"
defmt = "1"
defmt-rtt = "1"
embassy-executor = "0.10"
embassy-futures = "0.1"
embassy-rp = { version = "*", features = ["rp2040", "time-driver", "critical-section-impl", "unstable-pac"] }
embassy-sync = "*"
embassy-time = "*"
embassy-usb = "*"
embedded-alloc = "0.6"
embedded-graphics = "0.8"
embedded-storage-async = "0.4"
panic-probe = "1"
portable-atomic = "1"
sequential-storage = "7"
ssd1306 = "0.10"
static_cell = "2"
