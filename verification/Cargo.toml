[package]
name = "ping_probe"
version = "0.1.0"
edition = "2021"
publish = false

[dependencies]
chrono = { version = "*", default-features = false, features = ["clock"] }
eframe = { version = "*", default-features = false, features = ["glow", "x11"] }
egui = { version = "*", default-features = false }
rand = "*"
surge-ping = "*"
tokio = { version = "*", features = ["rt-multi-thread", "sync", "time", "net"] }
