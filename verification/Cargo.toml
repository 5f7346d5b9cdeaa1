[package]
name = "k-shrink"
version = "1.0.0"
edition = "2021"
publish = false

[dependencies]
image = "0.25"
sha2 = "0.10"
wl-clipboard-rs = "0.9"
tokio = { version = "1", features = ["macros", "rt-multi-thread", "time"] }
tracing = "0.1"
tracing-subscriber = "0.3"
dirs = "5"
serde = { version = "1", features = ["derive"] }
toml = "0.8"
thiserror = "2"
