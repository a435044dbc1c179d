[package]
name = "basic_http_server"
version = "0.1.0"
edition = "2021"
publish = false

[dependencies]
anyhow = "1"
bytes = "1"
env_logger = "0.7"
futures = "0.3"
handlebars = "3"
http = "0.2"
hyper = { version = "0.14", features = ["full"] }
local-ip-address = "*"
log = "0.4"
mime = "0.3"
mime_guess = "2"
percent-encoding = "2"
serde = { version = "1", features = ["derive"] }
structopt = "0.3"
tokio = { version = "1", features = ["full"] }
tokio-tungstenite = "*"
tokio-util = { version = "0.6", features = ["codec"] }
