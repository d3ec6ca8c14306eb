[package]
name = "muninn_firmware"
version = "0.3.0"
edition = "2021"
publish = false

[dependencies]
libm = "=0.2.16"
fixed = "=1.31.0"
defmt = "=1.2.0"
defmt-rtt = "=1.3.1"
panic-probe = { version = "=1.0.0", features = ["print-defmt"] }
embassy-executor = "=0.9.1"
embassy-time = "=0.5.1"
embassy-rp = { version = "=0.10.0", features = ["rp2040", "time-driver", "critical-section-impl"] }
