[package]
name = "nft_marketplace"
version = "0.1.0"
edition = "2021"
publish = false

[dependencies]
bincode = "1"
solana-sdk = "=1.18.26"
spl-token = "=4.0.3"
spl-associated-token-account = "=2.3.0"
mpl-token-metadata = "=4.1.2"
ed25519-dalek = "=1.0.1"
bs58 = "=0.4.0"
