[package]
name = "key_ripper"
version = "0.1.0"
edition = "2021"
publish = false

[dependencies]
cortex-m = "0.7"
critical-section = "1"
defmt = "0.3"
embedded-hal = "0.2"
fugit = "0.3"
rp2040-boot2 = "0.3"
rp2040-hal = { version = "0.8", features = ["rt", "critical-section-impl"] }
usb-device = "0.2"
usbd-hid = "0.6"
