[package]
name = "dkdc_md_cli"
version = "0.1.0"
edition = "2021"
publish = false

[dependencies]
serde_json = "1"
serde = "1"
ureq = "3"
clap = { version = "4", features = ["derive"] }
anyhow = "1"

[dev-dependencies]
percent-encoding = "2"
