[package]
name = "server_fn_codec"
version = "0.1.0"
edition = "2021"
publish = false

[dependencies]
bytes = "*"
ciborium = "*"
http = "*"
