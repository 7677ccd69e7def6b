[package]
name = "peekaboox"
version = "0.1.0"
edition = "2021"
publish = false

[dependencies]
regex = "=1.13.1"
image = { version = "=0.25.10", default-features = false, features = ["png"] }
dbus = "=0.9.12"
libc = "=0.2.191"
serde_json = "1"

[dev-dependencies]
image = { version = "=0.25.10", default-features = false, features = ["png"] }
