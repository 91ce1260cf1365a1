[package]
name = "bthome"
version = "0.1.0"
edition = "2021"
publish = false

[dependencies]
bluer = { version = "*", features = ["bluetoothd"] }
futures = "*"
tokio = { version = "*", features = ["macros", "rt"] }
