[package]
name = "ctf_events"
version = "0.1.0"
edition = "2021"
publish = false

[dependencies]
chrono = "=0.4.45"
dptree = "=0.3.0"
lazy_static = "=1.5.1"
log = "=0.4.34"
pretty_env_logger = "=0.5.0"
prometheus = "=0.13.4"
reqwest = { version = "=0.11.27", default-features = false, features = ["json"] }
serde = { version = "=1.0.229", features = ["derive"] }
serde_json = "=1.0.151"
takecell = "=0.1.1"
teloxide = { version = "=0.12.2", default-features = false, features = ["macros"] }
tokio = { version = "=1.53.2", features = ["full"] }
warp = { version = "=0.3.7", default-features = false }
