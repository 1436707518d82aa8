[package]
name = "cosmic-applet-arch"
version = "0.1.0"
edition = "2021"
publish = false

[dependencies]
arch-updates-rs = "*"
chrono = "*"
serde = { version = "*", features = ["derive"] }
toml = "*"
tokio = { version = "*", features = ["fs", "macros", "rt-multi-thread"] }
anyhow = "*"
