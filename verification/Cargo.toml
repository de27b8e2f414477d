[package]
name = "arbi_transfer"
version = "0.1.0"
edition = "2021"
publish = false

[dependencies]
anyhow = "1"
dotenv = "0.15"
ethers-core = "2"
ethers-middleware = "2"
ethers-providers = { version = "2", default-features = false, features = ["rustls"] }
ethers-signers = "2"
tokio = { version = "1", features = ["rt-multi-thread", "macros"] }
