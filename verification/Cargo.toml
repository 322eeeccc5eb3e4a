[package]
name = "bcl"
version = "0.1.0"
edition = "2021"
publish = false

[dependencies]
chrono = "0.4"
rusqlite = { version = "0.32", features = ["chrono"] }
owo-colors = "4"
tabled = "*"
tempfile = "3"
