[package]
name = "wc_grab"
version = "0.1.0"
edition = "2021"
publish = false

[dependencies]
image = { version = "=0.25.10", default-features = false, features = ["png"] }
dbus = { version = "=0.9.12", features = ["vendored"] }
clap = "=4.6.7"
