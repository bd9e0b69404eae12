[package]
name = "onion_client"
version = "0.1.0"
edition = "2021"
publish = false

[dependencies]
anyhow = "*"
dotenv = "*"
http-body-util = "*"
hyper = { version = "1", features = ["client", "http1"] }
hyper-util = { version = "*", features = ["tokio"] }
ipgeolocate = "*"
ratatui = "*"
tokio = { version = "1", features = ["full"] }
tokio-native-tls = "*"
tokio-tungstenite = "*"
