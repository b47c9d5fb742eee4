[package]
name = "chordsynth"
version = "0.1.0"
edition = "2021"
publish = false

[dependencies]
anyhow = "1"
cpal = "0.13"
dasp = { version = "0.11", features = ["signal"] }
termion = "1"
