[package]
name = "pca9685_proxy"
version = "0.1.0"
edition = "2021"
publish = false

[dependencies]
pwm-pca9685 = "0.3"
linux-embedded-hal = { version = "0.3", default-features = false }
log = "0.4"
