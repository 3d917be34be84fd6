[package]
name = "plegosa"
version = "0.4.0"
edition = "2021"
publish = false

[dependencies]
anyhow = "=1.0.104"
colored = "=3.1.1"
env_logger = "=0.11.11"
fast_html2md = "*"
kanaria = "=0.2.0"
log = "=0.4.35"
megalodon = "=1.3.0"
nanohtml2text = "=0.3.0"
regex = "=1.13.1"
reqwest = { version = "=0.12.28", features = ["json"] }
serde = { version = "=1.0.229", features = ["derive"] }
serde_json = "=1.0.154"
tokio = { version = "=1.54.1", features = ["macros", "rt-multi-thread"] }
toml = "=1.2.1"
unicode-normalization = "=0.1.26"
url = { version = "=2.5.8", features = ["serde"] }
