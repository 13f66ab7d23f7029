[package]
name = "fvm_kernel"
version = "0.1.0"
edition = "2021"
publish = false

[dependencies]
blake2b_simd = "1"
sha2 = "0.10"
sha3 = "0.10"
ripemd = "0.1"
bls-signatures = "0.15"
libsecp256k1 = "0.7"
rayon = "1"
num_cpus = "1"
