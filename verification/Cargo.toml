[package]
name = "media_session"
version = "0.1.0"
edition = "2021"
publish = false

[dependencies]
base64 = "=0.22.1"
dbus = { version = "=0.9.12", features = ["vendored"] }
json = "=0.12.4"
serde = { version = "=1.0.229", features = ["derive"] }
tokio = { version = "=1.54.1", features = ["rt"] }
tracing = "=0.1.44"
windows = { version = "=0.58.0", features = ["Foundation", "Media_Control", "Storage_Streams"] }
