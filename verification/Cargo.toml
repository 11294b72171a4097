[package]
name = "mapping_parser"
version = "0.1.0"
edition = "2021"
publish = false

[dependencies]
uuid = "=1.27.0"

[dev-dependencies]
uuid = "=1.27.0"
