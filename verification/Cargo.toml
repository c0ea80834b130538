[package]
name = "white_shark"
version = "0.1.0"
edition = "2021"
publish = false

[dependencies]
dashmap = "5"
tokio = { version = "1", features = ["full"] }
tokio-tungstenite = "0.24"
native-tls = "0.2"
tokio-native-tls = "0.3"
futures-util = "0.3"
http = "1"
reqwest = { version = "0.12", features = ["json"] }
rsa = "0.9"
pem = "3"
sha2 = "0.10"
rand = "0.8"
base64 = "0.22"
serde = { version = "1", features = ["derive"] }
serde_json = "1"
chrono = "0.4"
dotenv = "0.15"
tracing = "0.1"
tracing-subscriber = "0.3"
url = "2"
