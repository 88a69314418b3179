[package]
name = "babblebot"
version = "0.1.0"
edition = "2021"
publish = false

[dependencies]
regex = "1"
chrono = "0.4"
chrono-tz = "0.8"
humantime = "2"
bcrypt = "0.15"
base64 = "0.13"
semver = "1"
url = "2"
serde = { version = "1", features = ["derive"] }
serde_json = "1"
redis = "0.23"
reqwest = { version = "0.11", features = ["blocking", "json"] }
irc = { version = "0.15", default-features = false, features = ["tls-rust"] }
tokio = { version = "1", features = ["rt-multi-thread", "macros", "time"] }
futures = "0.3"
config = { version = "0.13", default-features = false, features = ["toml"] }
clap = "4"
crossbeam-channel = "0.5"
log = "0.4"
jsonwebtoken = "9"
rocket = { version = "0.5", features = ["json", "secrets"] }
rocket_dyn_templates = { version = "*", features = ["handlebars"] }
winapi = { version = "0.3", features = ["winuser"] }
