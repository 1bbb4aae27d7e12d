[package]
name = "linefilter"
version = "0.1.0"
edition = "2021"
publish = false

[dependencies]
regex = "*"
clap = { version = "4", features = ["derive"] }
crossterm = "0.25"
tui = "0.19"
tui-textarea = "0.2"
cansi = "2"
rayon = "1"
