[package]
name = "tpm_provider"
version = "0.1.0"
edition = "2021"
publish = false

[dependencies]
bincode = "=1.3.3"
log = "0.4"
parsec-interface = "=0.8.3"
picky-asn1 = "=0.1.0"
picky-asn1-der = "=0.1.0"
serde = { version = "1.0", features = ["derive"] }
uuid = "=0.7.4"
