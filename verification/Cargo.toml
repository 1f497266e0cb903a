[package]
name = "geyser_structured_log"
version = "0.1.0"
edition = "2021"
publish = false

[dependencies]
bs58 = "=0.5.1"
chrono = "=0.4.45"
log = "=0.4.34"
serde = { version = "=1.0.229", features = ["derive"] }
serde_json = "=1.0.151"
solana-logger = "=2.3.1"
