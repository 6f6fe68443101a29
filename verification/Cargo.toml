[package]
name = "surface-control"
version = "0.1.0"
edition = "2021"
publish = false

[dependencies]
anyhow = "1"
clap = { version = "4", features = ["cargo"] }
indoc = "2"
nix = { version = "*", features = ["ioctl"] }
serde = "1"
serde_json = "1"
smallvec = "1"
thiserror = "1"
udev = "*"
