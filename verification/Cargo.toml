[package]
name = "joinswap"
version = "0.1.0"
edition = "2021"
publish = false

[dependencies]
bdk = { version = "=0.28.2", default-features = false, features = ["std", "keys-bip39"] }
serde_json = "=1.0.154"
tokio = { version = "=1.54.1", features = ["net", "io-util", "rt-multi-thread", "macros", "time"] }
