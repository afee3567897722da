[package]
name = "cepheus"
version = "0.1.0"
edition = "2021"
publish = false

[dependencies]
tokio = { version = "=1.53.2", features = ["process", "io-util", "io-std", "rt-multi-thread", "time", "signal", "macros"] }
nix = { version = "=0.31.3", features = ["signal"] }
