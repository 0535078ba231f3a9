[package]
name = "work_timer"
version = "0.1.0"
edition = "2021"
publish = false

[dependencies]
iced = "0.3"
iced_native = "0.4"
rodio = { version = "0.14", default-features = false, features = ["mp3"] }
async-std = { version = "1", default-features = false, features = ["unstable"] }
