[package]
name = "pingdown"
version = "1.4.8"
edition = "2021"
publish = false

[dependencies]
regex = "1"
clap = { version = "4", features = ["derive"] }
serde = { version = "1", features = ["derive"] }
serde_json = "1"
colored = "*"
crossbeam-channel = "0.5"
ctrlc = "3"
