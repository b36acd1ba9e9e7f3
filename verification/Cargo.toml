[package]
name = "anda"
version = "0.1.0"
edition = "2021"
publish = false

[dependencies]
object_store = { version = "=0.12.5", default-features = false }
isolang = "=2.4.0"
url = "=2.5.8"
serde = { version = "=1.0.229", features = ["derive"] }
serde_json = "=1.0.154"
toml = "=0.8.23"
clap = { version = "=4.6.7", features = ["derive", "env"] }
candid = "=0.10.39"
moka = { version = "0.12", default-features = false, features = ["sync"] }
rand = "0.9"
const-hex = "1"
base64 = "0.22"
hex = "0.4"
