[package]
name = "bitswap_net"
version = "0.1.0"
edition = "2021"
publish = false

[dependencies]
tokio = { version = "1", features = ["rt", "rt-multi-thread", "sync", "time", "macros"] }
nix = { version = "*", features = ["signal"] }
file-guard = "*"
