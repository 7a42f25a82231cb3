[package]
name = "micrec"
version = "0.1.0"
edition = "2021"
publish = false

[dependencies]
clap = { version = "*", features = ["derive"] }
cpal = "*"
ctrlc = "*"

[dev-dependencies]
hound = "*"
