[package]
name = "ivt_patch"
version = "0.1.0"
edition = "2021"
publish = false

[dependencies]
goblin = "*"
object = "*"
clap = { version = "*", features = ["derive"] }
clap-num = "*"
