[package]
name = "azure_iot_mqtt"
version = "0.1.0"
edition = "2021"
publish = false

[dependencies]
serde_json = "*"
futures-core = "*"
futures-channel = "*"
log = "*"
base64 = "*"
chrono = "*"
percent-encoding = "*"
url = "*"
