[package]
name = "server"
version = "0.1.0"
edition = "2021"
publish = false

[dependencies]
anyhow = "=1.0.104"
async-trait = "=0.1.92"
axum = "=0.7.9"
base64 = "=0.22.1"
clap = { version = "=4.6.7", features = ["derive"] }
fern = { version = "=0.7.1", features = ["colored"] }
hyper = "=1.12.0"
log = "=0.4.34"
nostr-browser-signer = "0.44"
nostr-sdk = { version = "=0.44.1", features = ["all-nips"] }
pem-rfc7468 = { version = "=0.7.0", features = ["alloc"] }
rand = "=0.8.8"
reqwest-middleware = { version = "=0.4.2", features = ["json"] }
reqwest-retry = "=0.7.0"
serde = { version = "=1.0.229", features = ["derive"] }
serde_json = "=1.0.154"
serde-wasm-bindgen = "=0.6.5"
sqlx = { version = "=0.8.6", default-features = false, features = ["runtime-tokio", "sqlite", "migrate"] }
thiserror = "=1.0.69"
time = { version = "=0.3.55", features = ["formatting", "parsing"] }
tokio = { version = "=1.54.1", features = ["full"] }
toml = "=0.8.23"
tower-http = { version = "=0.6.11", features = ["cors", "fs"] }
uuid = { version = "=1.29.0", features = ["v7"] }
wasm-bindgen = "=0.2.129"
wasm-logger = "=0.2.0"
