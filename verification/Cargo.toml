[package]
name = "biometric_gate"
version = "0.1.0"
edition = "2021"
publish = false

[dependencies]
anyhow = "*"
zbus = "*"
zbus_polkit = "*"
