[package]
name = "immich_background"
version = "0.1.0"
edition = "2021"
publish = false

[dependencies]
anyhow = "*"
base64 = "*"
clap = { version = "*", features = ["derive"] }
dotenv = "*"
env_logger = "*"
log = "*"
rand = "*"
reqwest = { version = "*", default-features = false, features = ["json"] }
serde = { version = "*", features = ["derive"] }
sha1 = "*"
tokio = { version = "*", features = ["macros", "rt-multi-thread", "time"] }
