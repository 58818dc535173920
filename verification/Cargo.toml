[package]
name = "beep_sfu"
version = "0.1.0"
edition = "2021"
publish = false

[dependencies]
actix-cors = "=0.7.2"
actix-web = "=4.18.1"
anyhow = "1"
bytes = "=1.12.1"
crossbeam-channel = "=0.5.17"
jsonwebtoken = "=9.3.1"
rcgen = "=0.12.1"
retty = "=0.27.0"
rtc-dtls = "=0.1.1"
rtc-sctp = "=0.1.1"
serde = { version = "=1.0.229", features = ["derive"] }
serde_json = "=1.0.154"
sfu = "=0.0.3"
tracing = "=0.1.44"
tracing-subscriber = "=0.3.23"
wg = "=1.1.1"
