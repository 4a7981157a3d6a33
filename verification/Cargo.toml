[package]
name = "poseidon_prover"
version = "0.1.0"
edition = "2021"
publish = false

[dependencies]
async-trait = "=0.1.92"
base64 = "=0.22.1"
ff = "=0.13.1"
halo2_proofs = "=0.4.0"
halo2curves = "=0.7.0"
rand_core = { version = "=0.6.4", features = ["getrandom"] }
serde = { version = "=1.0.229", features = ["derive"] }
serde_json = "=1.0.151"
snarkify-sdk = "=0.1.0-alpha.11"
