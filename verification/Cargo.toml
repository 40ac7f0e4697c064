[package]
name = "rig_play"
version = "0.1.0"
edition = "2021"
publish = false

[dependencies]
rig-core = { version = "=0.44.0", features = ["reqwest"] }
tokio = { version = "=1.53.2", features = ["full"] }
serde_json = "=1.0.151"
colored = "=3.1.1"
dotenv = "=0.15.0"
log = "=0.4.34"
env_logger = "=0.11.11"
