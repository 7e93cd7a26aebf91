[package]
name = "wallet_tui"
version = "0.1.0"
edition = "2021"
publish = false

[dependencies]
ethers = { version = "2", default-features = false, features = ["abigen"] }
tokio = { version = "1", features = ["macros", "rt-multi-thread"] }
tui = "0.19"
crossterm = "0.25"
dotenvy = "0.15"
