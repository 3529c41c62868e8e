[package]
name = "weathr"
version = "0.1.0"
edition = "2021"
publish = false

[dependencies]
chrono = "*"
rand = "*"
serde = { version = "*", features = ["derive"] }
serde_json = "*"
tokio = { version = "*", features = ["rt-multi-thread", "macros", "sync", "time", "fs", "signal"] }
reqwest = { version = "*", default-features = false, features = ["json"] }
dirs = "*"
crossterm = "*"
clap = { version = "*", features = ["derive"] }
