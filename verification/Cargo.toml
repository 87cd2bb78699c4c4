[package]
name = "gdps_core"
version = "0.1.0"
edition = "2021"
publish = false

[dependencies]
sha1 = "0.10"
hex = "0.4"
base64 = "0.22"
chrono = "0.4"
rand = "0.9"
