[package]
name = "server_watcher"
version = "0.1.0"
edition = "2021"
publish = false

[dependencies]
axum = { version = "*", features = ["ws"] }
chrono = "*"
encoding_rs = "*"
futures-util = "*"
mime_guess = "*"
parking_lot = "*"
reqwest = { version = "*", default-features = false, features = ["json"] }
serde = { version = "*", features = ["derive"] }
serde_json = "*"
sysinfo = "*"
tar = "*"
tokio = { version = "*", features = ["full"] }
tokio-util = { version = "*", features = ["io"] }
tower-http = { version = "*", features = ["cors"] }
walkdir = "*"
xz2 = "*"
