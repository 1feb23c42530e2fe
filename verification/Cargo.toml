[package]
name = "compressed_log"
version = "0.1.0"
edition = "2021"
publish = false

[dependencies]
flate2 = "=1.1.10"
time = { version = "=0.3.55", features = ["formatting"] }
log = { version = "=0.4.34", features = ["std"] }
serde = { version = "=1.0.229", features = ["derive"] }
serde_json = "=1.0.151"
awc = { version = "=3.8.2", default-features = false }
actix-rt = "=2.15.0"
