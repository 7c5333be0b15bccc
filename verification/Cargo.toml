[package]
name = "dptrenchcraft"
version = "0.1.0"
edition = "2021"
publish = false

[dependencies]
clap = { version = "4", features = ["derive"] }
fastnbt = "2"
flate2 = "1"
mcdata = "*"
rustmatica = "*"
