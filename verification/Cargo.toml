[package]
name = "tunix"
version = "0.1.0"
edition = "2021"
publish = false

[dependencies]
bytes = "1"
libc = "0.2"
nix = { version = "0.29", features = ["ioctl", "fs", "socket", "net"] }
thiserror = "2"
tokio = { version = "1", features = ["net", "rt", "io-util", "macros", "sync"] }
tokio-util = { version = "0.7", features = ["codec"] }
futures = "0.3"
