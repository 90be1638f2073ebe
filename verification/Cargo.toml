[package]
name = "ics20_module"
version = "0.1.0"
edition = "2021"
publish = false

[dependencies]
ibc = "=0.57.0"
ibc-proto = "0.52"
prost = "0.13"
