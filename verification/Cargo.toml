[package]
name = "iodisco"
version = "0.1.0"
edition = "2021"
publish = false

[dependencies]
chrono = "*"
libc = "*"
serde = { version = "*", features = ["derive"] }
serde_json = "*"
thiserror = "*"
clap = { version = "*", features = ["derive"] }
