[package]
name = "wterm"
version = "0.1.0"
edition = "2021"
publish = false

[dependencies]
actix-web = { version = "*", default-features = false }
actix-ws = "*"
bytes = "*"
futures-util = "*"
serialport = { version = "*", default-features = false }
structopt = "*"
tokio = { version = "*", features = ["macros", "rt"] }
