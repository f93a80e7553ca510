[package]
name = "pillow_installer"
version = "0.1.0"
edition = "2021"
publish = false

[dependencies]
base16ct = { version = "0.2", features = ["alloc"] }
clap = { version = "4", features = ["derive"] }
reqwest = { version = "0.11", features = ["blocking", "json"] }
serde = { version = "1", features = ["derive"] }
serde_json = "1"
sha1 = "0.10"
