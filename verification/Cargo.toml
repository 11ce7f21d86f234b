[package]
name = "vvconvert"
version = "0.1.0"
edition = "2021"
publish = false

[dependencies]
serde_json = "1"
reqwest = { version = "0.11", default-features = false }
zip = { version = "0.6", default-features = false, features = ["deflate"] }
which = "4"
futures = "0.3"
tokio = { version = "1", features = ["fs", "process", "io-util", "rt"] }
libc = "0.2"
