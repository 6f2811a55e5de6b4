[package]
name = "silence_remover"
version = "0.1.0"
edition = "2021"
publish = false

[dependencies]
rayon = "*"
hound = "*"
clap = { version = "*", features = ["derive"] }
