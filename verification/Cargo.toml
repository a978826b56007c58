[package]
name = "sovereign_vault"
version = "0.1.0"
edition = "2021"
publish = false

[dependencies]
aes-gcm-siv = "0.11"
blake3 = "1"
getrandom = "0.2"
hex = "0.4"
hkdf = "0.12"
sha2 = "0.10"
pqcrypto-kyber = "0.8"
pqcrypto-traits = "0.3"
zeroize = "1"
parking_lot = "0.12"
pyo3 = "0.20"
