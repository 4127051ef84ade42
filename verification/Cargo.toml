[package]
name = "atomic_wait"
version = "0.1.0"
edition = "2021"
publish = false

[dependencies]
rustix = { version = "=1.1.5", features = ["thread"] }
libc = "=0.2.190"

[dev-dependencies]
crossbeam-utils = "=0.8.23"
