[package]
name = "socket_config"
version = "0.1.0"
edition = "2021"
publish = false

[dependencies]
cfg-if = "1"
clap = { version = "4", features = ["derive"] }
derive_more = "0.99"
futures = "0.3"
libc = "0.2"
nix = { version = "0.27", features = ["fs", "user"] }
once_cell = "1"
pin-project = "1"
serde = { version = "1", features = ["derive"] }
serde_with = "3"
socket2 = { version = "0.5", features = ["all"] }
thiserror = "1"
tokio = { version = "1", features = ["net"] }

[dev-dependencies]
serde_json = "1"
