[package]
name = "mk20d7-hal"
version = "0.1.0"
edition = "2021"
publish = false

[dependencies]
bit_field = "0.9"
bitrate = "*"
cast = { version = "0.2", default-features = false }
cortex-m = "0.5"
embedded-hal = { version = "0.2", features = ["unproven"] }
mk20d7 = "*"
nb = "0.1"
void = { version = "1", default-features = false }
