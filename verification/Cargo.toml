[package]
name = "altreg"
version = "0.1.0"
edition = "2021"
publish = false

[dependencies]
heapless = "=0.9.3"
embedded-hal = "=1.0.0"
embedded-hal-async = "=1.0.0"
embassy-sync = "=0.8.0"
embassy-time = { version = "=0.4.0", features = ["std"] }
embassy-futures = "=0.1.2"
static_cell = "=2.1.1"
async-button = "=0.2.0"
