[package]
name = "metrics_lockfree"
version = "0.1.0"
edition = "2021"
publish = false

[dependencies]
ahash = "0.8"
ascii = "1"
heck = "0.5"
proc-macro2 = "1"
prometheus = "0.13"
protobuf = "2"
quote = "1"
syn = "2"
tiny_http = "0.12"
