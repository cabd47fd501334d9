[package]
name = "jack_rust_mixer"
version = "0.1.0"
edition = "2021"
publish = false

[dependencies]
clap = "*"
crossbeam-channel = "*"
ctrlc = "*"
dbus = "0.8"
jack = "*"
