[package]
name = "democracy_client"
version = "0.1.0"
edition = "2021"
publish = false

[dependencies]
anyhow = "1"
clap = { version = "4", features = ["derive"] }
hex = "0.4"
parity-scale-codec = "3"
subxt = "0.37"
subxt-signer = { version = "0.37", default-features = false, features = ["sr25519", "subxt", "std"] }
tokio = { version = "1", features = ["macros", "rt-multi-thread"] }

[dev-dependencies]
blake2 = "0.10"
