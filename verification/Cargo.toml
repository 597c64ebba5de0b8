[package]
name = "taimi_hud"
version = "0.1.0"
edition = "2021"
publish = false

[dependencies]
json-strip-comments = "=3.1.2"
unic-langid-impl = "=0.9.6"
serde = { version = "=1.0.229", features = ["derive"] }
serde_json = "=1.0.154"
serde_repr = "=0.1.21"
strum = { version = "=0.28.0", features = ["derive"] }
strum_macros = "=0.28.0"
chrono = { version = "=0.4.45", features = ["serde"] }
glob = "=0.3.4"
log = "=0.4.35"
anyhow = "=1.0.104"
tokio = { version = "=1.54.1", features = ["rt", "fs", "sync", "time", "macros", "io-util"] }
relative-path = "=2.0.3"
bitflags = "=2.13.2"
indexmap = "=2.14.2"
itertools = "=0.15.0"
glam = "=0.34.2"
open = "=5.4.5"
octocrab = "=0.44.1"
reqwest = { version = "=0.12.28", default-features = false, features = ["stream", "rustls-tls"] }
tokio-tar = "=0.3.1"
async-compression = { version = "=0.4.52", features = ["tokio", "gzip"] }
tokio-util = { version = "=0.7.20", features = ["io"] }
tokio-stream = "=0.1.19"
futures = "=0.3.34"
