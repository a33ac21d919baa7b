[package]
name = "sgm_helper"
version = "0.1.0"
edition = "2021"
publish = false

[dependencies]
aes = "0.8"
sha1 = "0.10"
sha2 = "0.10"
md5 = "0.7"
hex = "0.4"
time = { version = "0.3", features = ["formatting"] }
serde = { version = "1", features = ["derive"] }
serde_json = "1"
anyhow = "1"
clap = { version = "4", features = ["derive"] }
ctrlc = "3"
walkdir = "2"
hostname = "0.4"
reqwest = { version = "0.12", default-features = false, features = ["blocking", "json", "multipart"] }
