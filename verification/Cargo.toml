[package]
name = "inky_phat"
version = "0.1.0"
edition = "2021"
publish = false

[dependencies]
embedded-hal = "0.2"
linux-embedded-hal = "0.3"
