[package]
name = "bombini"
version = "0.1.0"
edition = "2021"
publish = false

[dependencies]
yaml-rust2 = "=0.13.0"
chrono = "=0.4.45"
anyhow = "=1.0.104"
aya = "=0.13.1"
bitflags = { version = "=2.13.2", features = ["serde"] }
clap = { version = "=4.6.7", features = ["derive"] }
lazy_static = "=1.5.1"
log = "=0.4.35"
procfs = "=0.18.0"
prost = "=0.14.4"
serde = { version = "=1.0.229", features = ["derive"] }
serde_json = "=1.0.154"
tokio = { version = "=1.54.1", features = ["rt-multi-thread", "macros", "sync", "fs", "io-util", "net", "time"] }
