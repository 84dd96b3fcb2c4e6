[package]
name = "youtube_downloader"
version = "0.1.0"
edition = "2021"
publish = false

[dependencies]
dioxus = "=0.6.3"
yt-dlp = "=1.3.4"
