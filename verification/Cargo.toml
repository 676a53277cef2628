[package]
name = "poker_activity"
version = "0.1.0"
edition = "2021"
publish = false

[dependencies]
merlin = "3"
rand_core = { version = "0.6", features = ["getrandom"] }
schnorrkel = "0.11"

[dev-dependencies]
rand_chacha = "0.3"
