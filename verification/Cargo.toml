[package]
name = "gitbones"
version = "0.1.0"
edition = "2021"
publish = false

[dependencies]
anyhow = "=1.0.104"
clap = { version = "=4.6.7", features = ["derive"] }
console = "=0.16.6"
git2 = { version = "=0.21.0", default-features = false }
inquire = "=0.9.4"
openssh = "=0.11.6"
rust-embed = { version = "=8.13.0", features = ["interpolate-folder-path"] }
tokio = { version = "=1.54.1", features = ["rt-multi-thread", "macros", "io-util", "process"] }
walkdir = "=2.5.0"
serde = { version = "=1.0.229", features = ["derive"] }
toml = "=1.1.8"
