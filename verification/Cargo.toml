[package]
name = "qe"
version = "0.1.0"
edition = "2021"
publish = false

[dependencies]
failure = "0.1"
serde = "1"
serde_derive = "1"
