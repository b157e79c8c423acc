[package]
name = "relay"
version = "0.1.0"
edition = "2021"
publish = false

[dependencies]
actix-cors = "0.6"
actix-web = { version = "4", default-features = false, features = ["openssl"] }
crossbeam = "0.8"
futures = "0.3"
openssl = "0.10"
regex = "1"
tokio = { version = "1", features = ["full"] }
tungstenite = "0.20"
url = "2"
