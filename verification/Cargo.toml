[package]
name = "skale_gasless"
version = "0.1.0"
edition = "2021"
publish = false

[dependencies]
ethers = { version = "2", default-features = false }
num_cpus = "1"
rand = "0.8"
tokio = { version = "1", features = ["rt-multi-thread", "macros"] }
