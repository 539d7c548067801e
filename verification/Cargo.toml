[package]
name = "ossm"
version = "0.1.0"
edition = "2021"
publish = false

[dependencies]
anyhow = "=1.0.104"
embedded-svc = "=0.29.0"
esp-idf-svc = "=0.53.0"
fixedvec = "=0.2.4"
heapless = "=0.9.3"
log = "=0.4.34"
rmodbus = { version = "=0.12.2", features = ["fixedvec"] }
serde = { version = "=1.0.229", features = ["derive"] }
serde_json = "=1.0.154"
