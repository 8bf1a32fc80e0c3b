[package]
name = "bento_cauldron"
version = "0.1.0"
edition = "2021"
publish = false

[dependencies]
anchor-lang = "0.28.0"
anchor-spl = { version = "0.28.0", default-features = false, features = ["token"] }
borsh = "1"
spl-token = { version = "3.5.0", features = ["no-entrypoint"] }
spl-token-lending = { version = "0.2.0", features = ["no-entrypoint"] }
spl-token-swap = { version = "3.0.0", features = ["no-entrypoint"] }
uint = "0.9"
