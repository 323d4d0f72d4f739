[package]
name = "systembus_notifier"
version = "0.1.0"
edition = "2021"
publish = false

[dependencies]
nix = { version = "*", features = ["user"] }
dbus = "*"
clap = { version = "*", features = ["derive"] }
log = "*"
syslog = "*"
