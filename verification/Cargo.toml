[package]
name = "ic_siwb_provider"
version = "0.1.0"
edition = "2021"
publish = false

[dependencies]
getrandom = "0.2"
k256 = "0.13"
sha2 = "0.10"
serde = { version = "1", features = ["derive"] }
candid = "*"
ic-cdk = "*"

[dev-dependencies]
hex = "0.4"
