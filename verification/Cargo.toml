[package]
name = "slightlybettertext"
version = "0.1.0"
edition = "2021"
publish = false

[dependencies]
directories = "=6.0.0"
global-hotkey = "=0.6.4"
iced = { version = "=0.13.1", default-features = false, features = ["highlighter", "tiny-skia", "tokio"] }
log = "0.4"
rfd = { version = "=0.15.4", default-features = false, features = ["tokio", "xdg-portal"] }
serde = { version = "1", features = ["derive"] }
serde_json = "1"
simplelog = "0.12"
tokio = { version = "1", features = ["fs", "time"] }
