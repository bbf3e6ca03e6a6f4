[package]
name = "app_lib"
version = "0.1.0"
edition = "2021"
publish = false

[dependencies]
libp2p = { version = "=0.54.1", features = ["tokio", "tcp", "noise", "yamux", "request-response", "cbor", "macros", "ed25519"] }
tonic = "=0.12.3"
prost = { version = "=0.13.5", default-features = false, features = ["std"] }
tokio = { version = "=1.54.1", features = ["rt-multi-thread", "macros", "net", "sync"] }
tokio-stream = { version = "=0.1.19", features = ["net"] }
tower = { version = "=0.4.13", features = ["timeout"] }
config = { version = "=0.14.1", default-features = false, features = ["yaml"] }
serde = { version = "=1.0.229", features = ["derive"] }
serde_yaml = "=0.9.34"
log = "=0.4.35"
env_logger = "=0.11.11"
async-trait = "=0.1.92"
