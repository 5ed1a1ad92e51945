[package]
name = "tangible"
version = "0.1.0"
edition = "2021"
publish = false

[dependencies]
anyhow = "1"
clap = "2"
data-encoding = "2"
directories = "5"
os_str_bytes = "6"
serde = { version = "1", features = ["derive"] }
sha2 = "0.10"
symlink = "0.1"
toml = "0.5"
