[package]
name = "helion"
version = "0.1.0"
edition = "2021"
publish = false

[dependencies]
clock_ticks = "*"
serial = "*"
captrs = "*"
serde = "1"
serde_json = "1"
