[package]
name = "plumise_agent"
version = "0.1.0"
edition = "2021"
publish = false

[dependencies]
hex = "0.4"
sha3 = "0.10"
k256 = "0.13"
serde = { version = "1", features = ["derive"] }
serde_json = "1"
tokio = { version = "1", features = ["full"] }
reqwest = { version = "0.12", default-features = false, features = ["json", "stream", "rustls-tls"] }
tokio-tungstenite = { version = "0.24", features = ["rustls-tls-webpki-roots"] }
futures-util = "0.3"
tokio-util = { version = "0.7", features = ["io"] }
clap = { version = "4", features = ["derive"] }
ctrlc = "3"
env_logger = "0.11"
log = "0.4"
keyring = "3"
sysinfo = "0.32"
libc = "0.2"
zip = { version = "2", default-features = false, features = ["deflate"] }
