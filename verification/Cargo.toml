[package]
name = "partner_window"
version = "0.1.0"
edition = "2021"
publish = false

[dependencies]
miniz_oxide = "*"
embedded-hal = "1"
ftdi = "*"
ftdi-embedded-hal = "*"
clap = { version = "*", features = ["derive"] }
ctrlc = "*"
