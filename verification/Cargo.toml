[package]
name = "bind19"
version = "0.2.0"
edition = "2021"
publish = false

[dependencies]
dashmap = "6"
ed25519-dalek = { version = "2", features = ["rand_core"] }
rand = "0.8"
sha2 = "0.10"
