[package]
name = "infuse"
version = "0.1.0"
edition = "2021"
publish = false

[dependencies]
rust-crypto = "0.2"
diesel = { version = "1.4", features = ["postgres"] }
dotenv = "0.15"
env_logger = "0.9"
iron = "0.6"
log = "0.4"
logger = "0.4"
params = "0.8"
persistent = "0.4"
r2d2 = "0.8"
r2d2-diesel = "1.0"
router = "0.6"
serde = { version = "1", features = ["derive"] }
serde_json = "1"
