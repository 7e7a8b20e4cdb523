[package]
name = "pairtrade"
version = "0.1.0"
edition = "2021"
publish = false

[dependencies]
chrono = "*"
serde = { version = "*", features = ["derive"] }
serde_json = "*"
reqwest = { version = "*", default-features = false, features = ["json"] }
thiserror = "*"
futures = "*"
statrs = "*"
smartcore = "*"
wasm-bindgen = "*"
ts-rs = "*"
