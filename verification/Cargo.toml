[package]
name = "dcc_bit_codec"
version = "0.1.0"
edition = "2021"
publish = false

[dependencies]
bit_field = "*"
