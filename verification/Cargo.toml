[package]
name = "goose_developer"
version = "0.1.0"
edition = "2021"
publish = false

[dependencies]
anyhow = "1"
base64 = "0.22"
console = "0.15"
dirs = "5"
ignore = "0.4"
rustyline = "15"
serde_json = "1"
shellexpand = "3"
tokio = { version = "1", features = ["io-util", "macros", "process", "rt-multi-thread"] }
url = "2"
xcap = "*"
