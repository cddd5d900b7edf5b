[package]
name = "auto_buyer"
version = "0.1.0"
edition = "2021"
publish = false

[dependencies]
borsh = { version = "=1.8.1", features = ["derive"] }
pinocchio = "=0.7.1"
spl-token = { version = "=9.0.0", features = ["no-entrypoint"] }
thiserror = "=2.0.21"
