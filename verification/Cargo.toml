[package]
name = "mytime"
version = "0.1.0"
edition = "2021"
publish = false

[dependencies]
chrono = "=0.4.45"
rand = "=0.8.8"
rusqlite = { version = "=0.41.1", features = ["chrono"] }
thiserror = "=2.0.21"
iced = { version = "=0.14.0", default-features = false, features = ["tiny-skia", "x11", "tokio"] }
