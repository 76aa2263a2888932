[package]
name = "html_renderer"
version = "0.1.0"
edition = "2021"
publish = false

[dependencies]
anyhow = "1"
async-trait = "0.1"
reqwest = { version = "0.12", default-features = false }
serde_json = "1"
thirtyfour = "*"
tokio = { version = "1", features = ["time", "macros", "rt"] }
url = "2"
