[package]
name = "sound_mush"
version = "0.1.0"
edition = "2021"
publish = false

[dependencies]
atty = "0.2"
clap = "3"

[dev-dependencies]
wav = "1"
