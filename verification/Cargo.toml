[package]
name = "chess_session"
version = "0.1.0"
edition = "2021"
publish = false

[dependencies]
shakmaty = "0.29"
sha2 = "0.10"
base64 = "0.22"
candid = "0.10"
ic-cdk = "0.18"
ic-cdk-macros = "0.18"
serde = { version = "1", features = ["derive"] }
