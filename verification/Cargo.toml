[package]
name = "cardwire_tray"
version = "0.1.0"
edition = "2021"
publish = false

[dependencies]
serde = { version = "1", features = ["derive"] }
toml = "0.8"
zbus = "5"
tokio = { version = "1", features = ["rt-multi-thread", "macros", "sync", "time"] }
futures-util = "0.3"
ksni = "0.3"
notify-rust = { version = "4", default-features = false, features = ["z"] }
reqwest = { version = "0.12", default-features = false, features = ["json"] }
rfd = { version = "0.15", default-features = false, features = ["xdg-portal", "tokio"] }
