[package]
name = "rust-hexo"
version = "0.1.0"
edition = "2021"
publish = false

[dependencies]
anyhow = "1"
atom_syndication = "0.12"
axum = "0.7"
chrono = { version = "0.4", features = ["serde"] }
clap = { version = "4", features = ["derive"] }
colored = "2"
gray_matter = "0.2"
libloading = "0.8"
notify = "6"
pulldown-cmark = "0.9"
regex = "1"
rss = "2"
serde = { version = "1", features = ["derive"] }
serde_json = "1"
serde_yaml = "0.9"
slug = "0.1"
syntect = { version = "5", default-features = false, features = ["default-fancy"] }
tera = "1"
thiserror = "1"
tokio = { version = "1", features = ["full"] }
tower-http = { version = "0.5", features = ["fs"] }
tracing = "0.1"
tracing-subscriber = "0.3"
walkdir = "2"
