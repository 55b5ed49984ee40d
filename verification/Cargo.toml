[package]
name = "timesnapper-checker"
version = "0.1.0"
edition = "2021"
publish = false

[dependencies]
chrono = "0.4"
confy = "0.4"
native-windows-derive = "1.0"
native-windows-gui = "1.0"
rust-ini = "*"
serde = { version = "1", features = ["derive"] }
