[package]
name = "signer_core"
version = "0.1.0"
edition = "2021"
publish = false

[dependencies]
blake2 = "=0.10.6"
blst = "=0.3.17"
ciborium = "=0.2.2"
ed25519-dalek = { version = "=2.2.0", features = ["rand_core"] }
k256 = "=0.13.4"
p256 = "=0.13.2"
rand_core = { version = "=0.6.4", features = ["getrandom"] }
zeroize = "=1.9.1"
serde = { version = "=1.0.229", features = ["derive"] }
tokio = { version = "=1.54.1", features = ["rt-multi-thread", "macros", "net", "io-util"] }
libc = "=0.2.191"
aws-nitro-enclaves-nsm-api = "=0.4.0"
rsa = { version = "=0.9.10", features = ["sha2"] }
sha2 = "=0.10.9"
aws-config = "1"
aws-sdk-kms = "1"
