[package]
name = "bgr"
version = "0.1.0"
edition = "2021"
publish = false

[dependencies]
clap = { version = "*", features = ["derive"] }
directories = "*"
dirs = "*"
futures-util = "*"
reqwest = { version = "*", default-features = false, features = ["rustls-tls", "stream"] }
thiserror = "*"
tokio = { version = "*", features = ["rt-multi-thread", "fs", "io-util"] }

[dev-dependencies]
tempfile = "*"
