[package]
name = "sd_mmc"
version = "0.1.0"
edition = "2021"
publish = false

[dependencies]
bit_field = "=0.10.3"
embedded-error = "=0.6.0"
embedded-hal = { version = "=0.2.7", features = ["unproven"] }
