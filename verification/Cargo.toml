[package]
name = "cyoa"
version = "0.1.0"
edition = "2021"
publish = false

[dependencies]
smpl = "=0.13.0"
failure = "=0.1.8"
find_folder = "=0.3.0"
toml = "=0.9.8"
serde = "=1.0.229"
serde_derive = "=1.0.229"
