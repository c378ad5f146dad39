[package]
name = "telescope"
version = "0.1.0"
edition = "2021"
publish = false

[dependencies]
clap = { version = "=4.6.7", features = ["derive", "env"] }
directories = "=6.0.0"
gtk = "0.18"
keyring = "=4.2.0"
portable-pty = "=0.9.0"
serde = { version = "=1.0.229", features = ["derive"] }
serde_json = "=1.0.154"
tao = "=0.37.2"
tiny_http = "=0.12.0"
url = { version = "=2.5.8", features = ["serde"] }
uuid = { version = "=1.29.0", features = ["v4", "serde"] }
wry = "=0.57.1"
zeroize = "=1.9.1"
