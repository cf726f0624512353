[package]
name = "sociacli"
version = "0.1.7"
edition = "2021"
publish = false

[dependencies]
anyhow = "1"
audiopus = "0.2"
base64 = "0.22"
bytes = "1"
clap = { version = "4", default-features = false, features = ["derive", "error-context", "help", "std", "usage"] }
crossbeam-channel = "0.5"
crossterm = { version = "0.28", default-features = false, features = ["events"] }
directories = "6"
futures-util = { version = "0.3", default-features = false, features = ["sink", "std"] }
global-hotkey = "0.6"
hex = "0.4"
mlua = { version = "0.10", features = ["lua54", "vendored"] }
reqwest = { version = "0.12", default-features = false, features = ["blocking", "json", "rustls-tls"] }
rpassword = "7"
rustyline = { version = "14", default-features = false, features = ["with-file-history"] }
self_update = { version = "0.41", default-features = false, features = ["rustls"] }
serde = { version = "1", features = ["derive"] }
serde_json = "1"
sha2 = "0.10"
shlex = "1"
tokio = { version = "1", features = ["macros", "net", "rt-multi-thread", "sync", "time"] }
tokio-tungstenite = { version = "0.24", features = ["rustls-tls-webpki-roots"] }
toml = "0.8"
tracing = { version = "0.1", default-features = false, features = ["std"] }
tracing-subscriber = { version = "0.3", default-features = false, features = ["env-filter", "fmt"] }
url = "=2.5.2"
uuid = { version = "1", features = ["v4"] }
webrtc = "0.11"
