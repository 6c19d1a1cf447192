[package]
name = "mqtt_appender"
version = "0.1.0"
edition = "2021"
publish = false

[dependencies]
anyhow = "1"
async-std = "1"
log = "0.4"
log4rs = "=1.4.0"
paho-mqtt = "*"
serde = { version = "1", features = ["derive"] }
serde-value = "=0.7.0"
