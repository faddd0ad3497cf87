[package]
name = "netstream"
version = "0.1.0"
edition = "2021"
publish = false

[dependencies]
flv-rs = "0.1.1"
gc-arena = "0.2.2"
swf = "*"
tracing = "0.1"
