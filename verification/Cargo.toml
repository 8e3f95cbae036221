[package]
name = "chrome_lens_ocr"
version = "0.1.0"
edition = "2021"
publish = false

[dependencies]
rand = "0.8"
prost = "*"
reqwest = { version = "*", default-features = false }
tokio = { version = "*", features = ["macros", "rt-multi-thread"] }
anyhow = "*"
env_logger = "*"
image = "*"
