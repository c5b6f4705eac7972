[package]
name = "pixbox"
version = "0.1.0"
edition = "2021"
publish = false

[dependencies]
chrono = "0.4"
clap = { version = "4", features = ["derive"] }
photon-rs = "0.3"
prost = "0.12"
prost-types = "0.12"
rand = "0.8"
tokio = { version = "1", features = ["macros", "rt-multi-thread", "sync", "fs"] }
tonic = "0.11"
tonic-reflection = "0.11"
