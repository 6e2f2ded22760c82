[package]
name = "stormchaser"
version = "0.1.0"
edition = "2021"
publish = false

[dependencies]
uuid = { version = "=1.29.0", features = ["v4"] }
chrono = "=0.4.45"
serde = { version = "=1.0.229", features = ["derive"] }
serde_json = { version = "=1.0.154", features = ["preserve_order"] }
clap = { version = "=4.6.7", features = ["derive", "env"] }
k8s-openapi = { version = "=0.29.0", features = ["latest"] }
rustls-pemfile = "=2.2.0"
kube = "=5.0.0"
tokio = { version = "=1.54.1", features = ["full"] }
futures = "=0.3.34"
anyhow = "=1.0.104"
tracing = "=0.1.44"
tracing-subscriber = { version = "=0.3.23", default-features = false, features = ["fmt", "env-filter"] }
async-nats = "=0.51.0"
reqwest = { version = "=0.13.5", features = ["json", "stream"] }
ratatui = { version = "=0.30.2", default-features = false, features = ["crossterm"] }
eventsource-stream = "=0.2.3"
url = "=2.5.8"
serde_urlencoded = "=0.7.1"
urlencoding = "=2.1.3"
open = "=5.4.5"
humantime = "2"

[dev-dependencies]
