[package]
name = "presidium-crypto"
version = "0.1.0"
edition = "2021"
publish = false

[dependencies]
argon2 = "0.5"
bip39 = "2"
bs58 = "0.5"
chacha20poly1305 = "0.10"
curve25519-dalek = "4"
ed25519-dalek = "2"
hkdf = "0.12"
hmac = "0.12"
rand = "0.8"
sha2 = "0.10"
thiserror = "1"
x25519-dalek = { version = "2", features = ["static_secrets"] }
zeroize = "1"
