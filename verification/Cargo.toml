[package]
name = "open_imago"
version = "0.1.0"
edition = "2021"
publish = false

[dependencies]
anyhow = "*"
clap = { version = "*", features = ["derive"] }
indicatif = "*"
tokio = { version = "*", features = ["macros", "rt-multi-thread", "time"] }
yt-dlp = "*"
