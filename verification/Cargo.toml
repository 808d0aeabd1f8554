[package]
name = "snatchr"
version = "0.1.0"
edition = "2021"
publish = false

[dependencies]
regex = "1"
sanitize-filename = "*"
urlencoding = "2"
yt-dlp = "*"
axum = "0.8"
tokio = { version = "1", features = ["rt-multi-thread", "macros", "time", "net", "fs"] }
tower = { version = "0.5", features = ["util"] }
tower-http = { version = "0.6", features = ["fs"] }
serde = { version = "1", features = ["derive"] }
serde_json = "1"
uuid = { version = "1", features = ["v4"] }
tracing = "0.1"
tracing-subscriber = "0.3"
dotenvy = "0.15"
