[package]
name = "rpl_countdown"
version = "0.1.0"
edition = "2021"
publish = false

[dependencies]
ethers = { version = "*", default-features = false }
ethers-etherscan = "*"
serde_json = "*"
tokio = { version = "*", default-features = false, features = ["macros", "rt-multi-thread"] }
dotenv = "*"
eyre = "*"
