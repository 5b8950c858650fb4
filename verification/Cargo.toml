[package]
name = "miniover"
version = "0.1.0"
edition = "2021"
publish = false

[dependencies]
anyhow = "=1.0.104"
auto-launch = "=0.6.0"
dirs = "=7.0.0"
ftail = "=0.3.1"
futures-util = "=0.3.34"
gtk4 = "=0.11.5"
log = "=0.4.34"
native-tls = "=0.2.18"
native-windows-gui = "=1.0.13"
notify-rust = "=4.18.2"
open = "=5.4.5"
reqwest = { version = "=0.13.5", features = ["json", "form"] }
rpassword = "=7.5.4"
serde = { version = "=1.0.229", features = ["derive"] }
serde_json = "=1.0.154"
tauri-winrt-notification = "=0.8.1"
tokio = { version = "=1.54.1", features = ["full"] }
tokio-tungstenite = { version = "=0.30.0", features = ["native-tls"] }
tray-item = { version = "=0.10.0", features = ["ksni"] }
