[package]
name = "playback_bot"
version = "0.1.0"
edition = "2021"
publish = false

[dependencies]
anyhow = "1"
async-trait = "0.1"
axum = "=0.5.17"
bytes = "1"
dotenv = "0.15"
enigo = "=0.0.14"
rand = "=0.8.8"
redis = { version = "=0.22.4", features = ["tokio-comp"] }
regex = "=1.13.1"
reqwest = { version = "=0.11.27", features = ["json"] }
retry = "=2.2.0"
serde = { version = "1", features = ["derive"] }
serde_json = "=1.0.154"
serenity = { version = "=0.11.7", features = ["voice"] }
songbird = "0.3"
thirtyfour = "=0.31.0"
thiserror = "1"
tokio = { version = "1", features = ["full"] }
tower = "=0.4.13"
tower-http = { version = "=0.3.5", features = ["fs"] }
tracing = "0.1"
tracing-appender = "0.2"
tracing-bunyan-formatter = "0.3"
tracing-subscriber = { version = "0.3", features = ["env-filter"] }
tracing-tree = "0.2"
