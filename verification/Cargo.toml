[package]
name = "brick_profile"
version = "1.0.0"
edition = "2021"
publish = false

[dependencies]
ink = "=4.3.0"
parity-scale-codec = { version = "=3.7.5", features = ["derive"] }
scale-info = { version = "=2.11.6", features = ["derive"] }
pink-extension = "=0.4.6"
pink-json = { version = "=0.4.0", features = ["std"] }
pink-web3 = "=0.20.2"
this-crate = "=0.1.0"
hex_fmt = "=0.3.0"

[dev-dependencies]
secp256k1 = "=0.27.0"
