[package]
name = "pw_mover"
version = "0.1.0"
edition = "2021"
publish = false

[dependencies]
axum = { version = "=0.7.9", features = ["ws"] }
crossbeam-channel = "=0.5.17"
ctrlc = "=3.5.2"
futures-util = "=0.3.34"
tiny_http = "=0.12.0"
tokio = { version = "=1.54.1", features = ["macros", "net", "rt-multi-thread", "sync", "time"] }
tracing = "=0.1.44"
widestring = "=1.2.1"
windows = { version = "=0.56.0", features = ["Win32_Foundation", "Win32_Security", "Win32_System_Threading", "Win32_UI_WindowsAndMessaging"] }
