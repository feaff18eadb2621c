[package]
name = "ironfish_wallet"
version = "0.1.0"
edition = "2021"
publish = false

[dependencies]
const-hex = "=1.19.3"
zune-inflate = "=0.2.54"
thiserror = "=1.0.69"
tokio-rayon = "=2.1.0"
uniffi = "=0.28.3"
