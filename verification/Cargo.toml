[package]
name = "auctionhouse"
version = "0.1.0"
edition = "2021"
publish = false

[dependencies]
anchor-lang = "0.24.2"
anchor-spl = "0.24.2"
spl-associated-token-account = { version = "1.0", features = ["no-entrypoint"] }
spl-token = { version = "3.2", features = ["no-entrypoint"] }
