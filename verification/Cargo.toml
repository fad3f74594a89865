[package]
name = "benchviz"
version = "0.1.0"
edition = "2021"
publish = false

[dependencies]
clap = "2.33"
colored = "1.9"
dialoguer = "0.5"
dirs = "2.0"
prettytable-rs = "0.8"
serde = { version = "1.0", features = ["derive"] }
serde_json = "1.0"
