[package]
name = "hydraulic"
version = "0.1.0"
edition = "2021"
publish = false

[dependencies]
uom = "0.30"
plotlib = "0.5"
rustplotlib = "*"

[dev-dependencies]
rand = "0.8"
