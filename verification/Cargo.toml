[package]
name = "tinymist"
version = "0.1.0"
edition = "2021"
publish = false

[dependencies]
anyhow = "1"
base64 = "0.22"
comemo = "0.4"
criterion = { version = "0.5", default-features = false }
ecow = "0.2"
futures = "0.3"
log = "0.4"
reflexo = { version = "0.5.4", default-features = false }
serde = { version = "1", features = ["derive"] }
serde_json = "1"
serde_yaml = "0.9"
tokio = { version = "1", features = ["rt", "sync"] }
typst = "0.13.1"
typst-eval = "0.13.1"
typst-html = "0.13.1"
typst-render = "0.13.1"
typst-svg = "0.13.1"
