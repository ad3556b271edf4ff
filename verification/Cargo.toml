[package]
name = "bosun_emitter"
version = "0.1.0"
edition = "2021"
publish = false

[dependencies]
chrono = { version = "0.4", default-features = false, features = ["clock"] }
clap = "2"
env_logger = "0.4"
hyper = "0.10"
hyper-native-tls = "0.3"
log = "0.3"
rustc-serialize = "0.3"
toml = "0.2"
