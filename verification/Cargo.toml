[package]
name = "setns_shell"
version = "0.1.0"
edition = "2021"
publish = false

[dependencies]
libc = "=0.2.191"

[dev-dependencies]
rustix = { version = "=1.1.5", features = ["fs"] }
tempfile = "=3.27.0"
