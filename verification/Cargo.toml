[package]
name = "bp_primitives"
version = "0.1.0"
edition = "2021"
publish = false

[dependencies]
amplify = "*"
commit_verify = "*"
secp256k1 = { version = "*", features = ["global-context"] }
strict_encoding = "*"
