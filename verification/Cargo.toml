[package]
name = "socketcan"
version = "0.1.0"
edition = "2021"
publish = false

[dependencies]
smallvec = "=1.16.4"
hex = "=0.4.3"
libc = "=0.2.191"
embedded-can = "=0.4.1"
socket2 = { version = "=0.6.5", features = ["all"] }
nix = { version = "=0.31.3", features = ["poll", "net"] }
neli = "=0.7.5"
serde = { version = "=1.0.229", features = ["derive"] }
nb = "1"
tokio = { version = "1", features = ["net"] }
