[package]
name = "sc2_core"
version = "0.1.0"
edition = "2021"
publish = false

[dependencies]
indexmap = "1"
rustc-hash = "1"
rand = "0.7"
num-traits = "0.2"
sc2-proto = "*"
