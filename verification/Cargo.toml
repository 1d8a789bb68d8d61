[package]
name = "superfastgen"
version = "0.1.0"
edition = "2021"
publish = false

[dependencies]
clap = { version = "4", features = ["derive"] }
env_logger = "0.10"
log = "0.4"
notify = "6"
rayon = "1"
serde = { version = "1", features = ["derive"] }
serde_yaml = "0.9"
sha1 = "0.10"
tree-sitter = "0.20"
walkdir = "2"

[dev-dependencies]
tempfile = "3"
