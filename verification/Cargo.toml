[package]
name = "tmc5130"
version = "0.1.0"
edition = "2021"
publish = false

[dependencies]
bitfield = "*"
defmt = "*"
embedded-hal = "1.0"
embedded-hal-async = "1.0"
