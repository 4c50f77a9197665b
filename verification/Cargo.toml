[package]
name = "zhuyin_audio"
version = "0.1.0"
edition = "2021"
publish = false

[dependencies]
rodio = { version = "*", default-features = false, features = ["flac", "vorbis", "wav", "mp3"] }
