[package]
name = "rustypub"
version = "0.1.0"
edition = "2021"
publish = false

[dependencies]
anyhow = "=1.0.104"
base64 = "=0.23.1"
chrono = { version = "=0.4.45", features = ["serde"] }
httpdate = "=1.0.3"
log = "=0.4.34"
openssl = "=0.10.81"
reqwest = "=0.13.5"
reqwest-middleware = "=0.5.2"
rocket = "=0.5.2"
rocket_dyn_templates = "=0.2.0"
serde = { version = "=1.0.229", features = ["derive"] }
serde_json = "=1.0.154"
sha2 = "=0.10.9"
sqlx = { version = "=0.9.0", features = ["postgres", "chrono", "runtime-tokio"] }
url = "=2.5.8"

[dev-dependencies]
http-signature-normalization = "=0.7.1"
