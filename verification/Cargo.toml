[package]
name = "pool_price"
version = "0.1.0"
edition = "2021"
publish = false

[dependencies]
chrono = { version = "=0.4.45", default-features = false, features = ["clock"] }
dotenv = "=0.15.0"
ethers-contract = { version = "2.0", default-features = false, features = ["abigen", "providers"] }
ethers-core = "2.0"
ethers-providers = { version = "2.0", default-features = false, features = ["ws", "rustls"] }
futures = "=0.3.34"
tokio = { version = "=1.54.1", features = ["macros", "rt-multi-thread"] }
