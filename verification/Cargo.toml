[package]
name = "murmur"
version = "0.3.0"
edition = "2021"
publish = false

[dependencies]
base64 = "=0.22.1"
serde = { version = "=1.0.229", features = ["derive"] }
serde_json = "=1.0.154"
once_cell = "=1.21.4"
chrono = "=0.4.45"
hound = "=3.5.1"
zip = { version = "=2.6.1", default-features = false, features = ["deflate"] }
reqwest = { version = "=0.12.28", default-features = false, features = ["json", "multipart", "rustls-tls"] }
tokio = { version = "=1.54.1", features = ["fs", "io-util", "process", "time", "rt", "macros"] }
rusqlite = { version = "=0.32.1", features = ["bundled"] }
windows-sys = { version = "=0.52.0", features = ["Win32_Foundation", "Win32_UI_WindowsAndMessaging", "Win32_UI_Input_KeyboardAndMouse", "Win32_System_Threading", "Win32_System_LibraryLoader"] }
cpal = { version = "0.15", default-features = false }
arboard = { version = "3", default-features = false }
