[package]
name = "alfredodev"
version = "0.1.0"
edition = "2021"
publish = false

[dependencies]
aes-gcm = "=0.10.3"
anyhow = "=1.0.104"
bson = { version = "=2.15.0", features = ["chrono-0_4"] }
chrono = "=0.4.45"
clap = { version = "=4.6.7", features = ["derive"] }
data-encoding = "=2.11.1"
dirs = "=5.0.1"
rand = "=0.9.5"
reqwest = { version = "=0.12.28", default-features = false, features = ["json"] }
roxmltree = "=0.20.0"
serde = { version = "=1.0.229", features = ["derive"] }
serde_json = "=1.0.154"
sha2 = "=0.10.9"
slug = "=0.1.6"
tokio = { version = "=1.54.1", features = ["macros", "rt-multi-thread", "fs", "time"] }
totp-rs = { version = "=5.7.2", features = ["otpauth"] }
zip = { version = "=2.6.1", default-features = false, features = ["deflate"] }
