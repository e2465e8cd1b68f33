[package]
name = "serve_here"
version = "2.0.0"
edition = "2021"
publish = false

[dependencies]
axum = "0.7"
chrono = "0.4"
clap = { version = "4", features = ["derive"] }
html-escape = "0.2"
libc = "0.2"
local-ip-address = "0.6"
mime_guess = "2"
serde = { version = "1", features = ["derive"] }
sysinfo = "0.30"
tokio = { version = "1", features = ["full"] }
tokio-util = { version = "0.7", features = ["io"] }
tracing = "0.1"
tracing-subscriber = "0.3"
urlencoding = "2"
