[package]
name = "tabshot"
version = "0.1.0"
edition = "2021"
publish = false

[dependencies]
url = "*"
chromiumoxide = { version = "*", default-features = false, features = ["tokio-runtime"] }
colored = "*"
columns = "*"
futures = "*"
reqwest = "*"
tokio = { version = "*", features = ["full"] }
