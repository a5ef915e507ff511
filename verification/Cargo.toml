[package]
name = "musicplayer"
version = "0.1.0"
edition = "2021"
publish = false

[dependencies]
rand = "*"
rodio = "*"
clap = { version = "*", features = ["derive"] }
glob = "*"
directories = "*"
serde = { version = "*", features = ["derive"] }
toml = "*"
anyhow = "*"
