[package]
name = "lora_comms"
version = "0.1.0"
edition = "2021"
publish = false

[dependencies]
async-trait = "0.1"
base64 = "0.22"
bytes = "1"
chrono = { version = "0.4", features = ["serde"] }
crc = "3"
libc = "0.2"
rand = "0.8"
rumqttc = "0.24"
serde = { version = "1", features = ["derive"] }
serde_json = "1"
thiserror = "1"
tokio = { version = "1", features = ["full"] }
tokio-serial = "5"
url = "2"
uuid = { version = "1", features = ["v4"] }
