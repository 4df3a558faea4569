[package]
name = "ruuvitag_additions"
version = "0.1.0"
edition = "2021"
publish = false

[dependencies]
anyhow = "*"
crossbeam-channel = "*"
log = "*"
paho-mqtt = "*"
serde_json = "*"
signal-hook = "*"
simplelog = "*"
