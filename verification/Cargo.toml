[package]
name = "gpio_interrupt"
version = "0.1.0"
edition = "2021"
publish = false

[dependencies]
critical-section = { version = "=1.2.0", features = ["std"] }
log = "=0.4.34"
