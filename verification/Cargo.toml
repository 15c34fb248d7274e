[package]
name = "nodebench"
version = "0.1.0"
edition = "2021"
publish = false

[dependencies]
color-eyre = "0.5"
openssh = "0.8"
serde = { version = "1", features = ["derive"] }
serde_json = "1"
structopt = "0.3"
tokio = { version = "1", features = ["full"] }
tracing = "0.1"
tracing-error = "0.1"
tracing-subscriber = "0.2"
tsunami = "0.11"
ubuntu-ami = "*"
