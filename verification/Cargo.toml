[package]
name = "statsd_wire"
version = "0.1.0"
edition = "2021"
publish = false

[dependencies]
indexmap = "2"
