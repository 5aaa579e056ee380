[package]
name = "dbus_executor"
version = "0.1.0"
edition = "2021"
publish = false

[dependencies]
nix = { version = "*", features = ["process"] }
tracing = "*"
tracing-subscriber = { version = "*", features = ["env-filter"] }
zbus = "*"
