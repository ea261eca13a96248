[package]
name = "png2t"
version = "0.1.2"
edition = "2021"
publish = false

[dependencies]
clap = { version = "4", features = ["derive"] }
crossterm = "*"
human-sort = "*"
image = { version = "*", default-features = false, features = ["exr", "png"] }
regex = "1"
rodio = "*"
