[package]
name = "tick_clock"
version = "0.1.0"
edition = "2021"
publish = false

[dependencies]
embedded-time = "=0.12.1"
embedded-hal = "=0.2.7"
cortex-m = "=0.7.10"
nb = "=1.1.0"
void = { version = "1", default-features = false }
