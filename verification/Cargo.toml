[package]
name = "milo"
version = "0.1.0"
edition = "2021"
publish = false

[dependencies]
ctrlc = "3"
futures-channel = "0.3"
futures-util = "0.3"
gtk4 = "*"
serde = { version = "1", features = ["derive"] }
serde_json = "1"
wayland-client = "0.31"
wayland-protocols = { version = "0.32", features = ["client", "staging"] }
