[package]
name = "openai_client"
version = "0.1.0"
edition = "2021"
publish = false

[dependencies]
bytes = "1"
reqwest = { version = "0.12", features = ["json", "multipart"] }
serde_json = { version = "1", features = ["preserve_order"] }
tokio = { version = "1", features = ["macros", "rt-multi-thread"] }
