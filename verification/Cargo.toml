[package]
name = "spider"
version = "0.1.0"
edition = "2021"
publish = false

[dependencies]
bytes = "1"
percent-encoding = "2"
cowstr = "*"
num_cpus = "1"
url = "2"
anyhow = "1"
log = "0.4"
once_cell = "1"
dashmap = "5"
moka = { version = "0.11", features = ["future"] }
tokio = { version = "1", features = ["time", "sync", "fs", "io-util", "macros", "rt"] }
tokio-stream = "0.1"
reqwest = { version = "0.11", default-features = false, features = ["stream"] }
chromiumoxide = { version = "0.5", default-features = false, features = ["tokio-runtime"] }
