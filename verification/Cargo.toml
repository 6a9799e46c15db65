[package]
name = "tag_frames"
version = "0.1.0"
edition = "2021"
publish = false

[dependencies]
id3 = "1"
neon = "1"
