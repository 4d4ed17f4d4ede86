[package]
name = "nds_display"
version = "0.1.0"
edition = "2021"
publish = false

[dependencies]
bitflags = "2"
modular-bitfield = "0.11"
voladdress = "1"
