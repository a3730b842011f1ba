[package]
name = "rgrit"
version = "0.1.0"
edition = "2021"
publish = false

[dependencies]
proc-macro2 = "1"
quote = "1"
syn = "2"
thiserror = "1"
rgrit-sys = "0.1.2"
