[package]
name = "solvalmon"
version = "0.1.0"
edition = "2021"
publish = false

[dependencies]
base64 = "=0.23.1"
chrono = "=0.4.45"
clap = { version = "=4.6.7", features = ["derive"] }
futures = "=0.3.34"
hostname = "=0.4.2"
reqwest = { version = "=0.12.28", default-features = false, features = ["json", "rustls-tls"] }
rocket = { version = "0.5", features = ["json", "mtls", "tls"] }
serde = { version = "=1.0.229", features = ["derive"] }
serde_json = "=1.0.154"
sha256 = { version = "=1.6.0", default-features = false }
solana-pubkey = { version = "=4.4.0", features = ["std"] }
solana-signature = { version = "=3.6.0", features = ["std", "verify"] }
tabled = "=0.22.0"
tokio = { version = "=1.54.1", features = ["macros", "rt-multi-thread", "time", "net", "io-util"] }

[dev-dependencies]
solana-ed25519 = "=0.2.4"
