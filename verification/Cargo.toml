[package]
name = "accounts"
version = "0.1.0"
edition = "2021"
publish = false

[dependencies]
argon2 = { version = "=0.5.3", features = ["std"] }
base64 = "=0.22.1"
cookie = "=0.18.2"
futures-lite = "=2.6.1"
getrandom = "=0.2.17"
hyper = { version = "=0.14.32", features = ["http1", "server", "stream"] }
log = "=0.4.35"
rusqlite = { version = "=0.32.1", features = ["bundled"] }
time = "=0.3.55"
totp-rs = { version = "=5.7.2", features = ["otpauth", "gen_secret"] }
url = "=2.5.8"
