[package]
name = "xpub_scan"
version = "0.1.0"
edition = "2021"
publish = false

[dependencies]
bitcoin = "0.27"
clap = { version = "*", features = ["derive"] }
figlet-rs = "*"
reqwest = { version = "*", default-features = false, features = ["json"] }
serde_json = "*"
thiserror = "*"
tokio = { version = "*", features = ["rt-multi-thread", "macros", "time"] }
