[package]
name = "synth_core"
version = "0.1.0"
edition = "2021"
publish = false

[dependencies]
rand = "=0.8.8"
serde = { version = "1", features = ["derive"] }
serde_json = "1"
clap = { version = "4", features = ["derive", "env"] }
ctrlc = "3"
anyhow = "1"
tokio = { version = "1", features = ["sync"] }
