[package]
name = "me_rpc"
version = "0.1.0"
edition = "2021"
publish = false

[dependencies]
aes = "0.8"
crc32fast = "1"
md-5 = "0.10"
sha1 = "0.10"
hex = "0.4"
bytes = "1"
anyhow = "1"
tracing = "0.1"
tokio = { version = "1", features = ["rt-multi-thread", "net", "io-util", "sync", "time", "fs", "signal", "macros"] }
reqwest = { version = "0.12", default-features = false, features = ["rustls-tls"] }
rustls = { version = "0.23", default-features = false, features = ["ring", "std", "tls12", "logging"] }
tokio-rustls = { version = "0.26", default-features = false, features = ["ring", "tls12", "logging"] }
