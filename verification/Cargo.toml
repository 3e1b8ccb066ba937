[package]
name = "model_prover"
version = "0.1.0"
edition = "2021"
publish = false

[dependencies]
clap = "3"
risc0-zkvm = "0.20"
rmp-serde = "1"
serde = { version = "1", features = ["derive"] }
serde_json = "1"
smartcore = { version = "0.3", features = ["serde"] }
