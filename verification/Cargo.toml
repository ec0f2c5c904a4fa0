[package]
name = "srt_whep"
version = "0.1.0"
edition = "2021"
publish = false

[dependencies]
actix-cors = "=0.7.2"
actix-web = "=4.15.0"
anyhow = "=1.0.104"
async-trait = "=0.1.92"
clap = { version = "=4.6.7", features = ["derive"] }
event-listener = "=5.4.2"
glib = "=0.22.10"
gstreamer = "=0.25.4"
gstreamer-pbutils = "=0.25.4"
kstring = "=2.0.2"
serde = { version = "=1.0.229", features = ["derive"] }
serde_json = "=1.0.151"
thiserror = "=2.0.21"
timed-locks = "=0.1.1"
tokio = { version = "=1.53.2", features = ["full"] }
tokio-async-drop = "=0.1.0"
toml = "=1.1.7"
tracing = "=0.1.44"
tracing-actix-web = "=0.7.25"
uuid = { version = "=1.27.0", features = ["v4"] }
