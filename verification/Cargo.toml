[package]
name = "openvtc"
version = "0.1.0"
edition = "2021"
publish = false

[dependencies]
anyhow = "=1.0.104"
arboard = { version = "=3.7.0", default-features = false }
base64 = "=0.22.1"
chrono = "=0.4.45"
clap = "=4.6.7"
console = "=0.16.6"
dialoguer = "=0.12.0"
dirs = "=7.0.0"
dtg-credentials = "=0.5.0"
ed25519-dalek-bip32 = "=0.3.0"
hex = "=0.4.3"
keyring-core = "=1.0.1"
linux-keyutils-keyring-store = "=1.0.0"
secrecy = "=0.10.3"
serde_json = "=1.0.154"
sha2 = "=0.10.9"
tokio = { version = "=1.54.1", features = ["macros", "rt-multi-thread", "signal", "sync", "time"] }
tracing = "=0.1.44"
tracing-subscriber = { version = "=0.3.23", features = ["env-filter"] }
uuid = { version = "=1.29.0", features = ["v4"] }
