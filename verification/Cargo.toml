[package]
name = "bubblegum_bridge"
version = "0.1.0"
edition = "2021"
publish = false

[dependencies]
mpl-bubblegum = "=1.4.0"
solana-sdk = "=1.18.26"
solana-program = "=1.18.26"
spl-account-compression = { version = "=0.4.2", features = ["no-entrypoint"] }
spl-noop = { version = "=0.2.0", features = ["no-entrypoint"] }
serde_json = "1"

[dev-dependencies]
borsh = "=0.10.4"
