[package]
name = "img_util"
version = "0.1.0"
edition = "2021"
publish = false

[dependencies]
anyhow = "1"
md5 = "0.7"
mime_guess = "2"
reqwest = { version = "0.12", default-features = false, features = ["multipart", "json"] }
serde = { version = "1", features = ["derive"] }
serde_json = "1"
tokio = { version = "1", features = ["macros", "rt-multi-thread"] }
url = "2"
urlencoding = "2"
