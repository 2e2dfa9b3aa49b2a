[package]
name = "frame_probe"
version = "0.1.0"
edition = "2021"
publish = false

[dependencies]
serde_json = "1"
structopt = "0.3"
ctrlc = "3"
