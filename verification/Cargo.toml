[package]
name = "openvr"
version = "0.1.0"
edition = "2021"
publish = false

[dependencies]
openvr_sys = "2"
