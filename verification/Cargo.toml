[package]
name = "psp22_asset_extension"
version = "0.1.0"
edition = "2021"
publish = false

[dependencies]
parity-scale-codec = { version = "=3.7.5", features = ["derive"] }
sp-runtime = "=7.0.0"
sp-std = "=5.0.0"
substrate-bip39 = "=0.4.4"
