[package]
name = "jobqueue"
version = "0.1.0"
edition = "2021"
publish = false

[dependencies]
ulid = "=3.0.0"
chrono = "=0.4.45"
serde = { version = "=1.0.229", features = ["derive"] }
serde_json = "=1.0.151"
tokio = { version = "=1.53.2", features = ["full"] }
ractor = "=0.16.5"
tracing = "=0.1.44"
object_store = "=0.14.2"
bytes = "=1.12.1"
