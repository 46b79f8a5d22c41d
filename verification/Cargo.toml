[package]
name = "casper_circom"
version = "0.1.0"
edition = "2021"
publish = false

[dependencies]
ark-bls12-377 = "=0.6.0"
ark-bn254 = "=0.6.0"
ark-circom = "=0.6.0"
ark-crypto-primitives = "=0.6.0"
ark-ec = "=0.6.0"
ark-ff = "=0.6.0"
ark-groth16 = "=0.6.0"
ark-serialize = "=0.6.0"
rand = "=0.8.8"
serde = { version = "=1.0.229", features = ["derive"] }
serde_json = "=1.0.151"
