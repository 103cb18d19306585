[package]
name = "tcpserver"
version = "0.1.0"
edition = "2021"
publish = false

[dependencies]
anyhow = "1"
aqueue = "1"
async-trait = "0.1"
log = "0.4"
thiserror = "1"
tokio = { version = "1", features = ["net", "io-util", "rt", "rt-multi-thread", "time"] }
