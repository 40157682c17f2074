[package]
name = "mpc_ecdsa"
version = "0.1.0"
edition = "2021"
publish = false

[dependencies]
multi-party-ecdsa = "=0.8.1"
curv-kzen = "=0.9.0"
kzen-paillier = "=0.4.2"
zk-paillier = "=0.4.3"
sha2 = "0.9"
digest = "0.9"

[dev-dependencies]
k256 = "0.13"
serde_json = "1"
