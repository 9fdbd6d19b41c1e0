[package]
name = "rusqlite_isle"
version = "0.4.0"
edition = "2021"

[dependencies]
rusqlite = { version = "0.37", features = ["bundled"] }
thiserror = "2"
tokio = { version = "1", features = ["sync", "time", "rt"] }
