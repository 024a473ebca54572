[package]
name = "lqos"
version = "0.1.0"
edition = "2021"
publish = false

[dependencies]
nix = { version = "0.29", default-features = false, features = ["user", "net"] }
libbpf-sys = "1"
anyhow = "1"
bincode = "1"
log = "0.4"
serde = { version = "1", features = ["derive"] }
