[package]
name = "decay_voting"
version = "0.1.0"
edition = "2021"
publish = false

[dependencies]
chrono = { version = "0.4", default-features = false, features = ["std", "now", "serde"] }
ed25519-dalek = { version = "2", features = ["rand_core"] }
rand = "0.8"
rust_decimal = { version = "1", default-features = false, features = ["std", "maths"] }
rust_decimal_macros = "1"
serde = { version = "1", features = ["derive"] }
serde_json = "1"
sha2 = "0.10"
