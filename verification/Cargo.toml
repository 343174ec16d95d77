[package]
name = "volley"
version = "0.1.0"
edition = "2021"
publish = false

[dependencies]
pnet = "0.35"
rand = "0.8"
oneshot = "0.1"
clap = { version = "4", features = ["derive"] }
chrono = "0.4"
textplots = "0.8"
