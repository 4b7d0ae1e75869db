[package]
name = "genai-media"
version = "0.1.0"
edition = "2021"
publish = false

[dependencies]
base64 = "0.22"
reqwest = { version = "0.12", features = ["json"] }
serde = { version = "1", features = ["derive"] }
serde_json = "1"
clap = { version = "4.5", features = ["derive"] }
tokio = { version = "1", features = ["macros", "rt-multi-thread", "time"] }
owo-colors = { version = "4", features = ["supports-colors"] }
dirs = "6"
