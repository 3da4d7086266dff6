[package]
name = "rustshell"
version = "0.1.0"
edition = "2021"
publish = false

[dependencies]
sodiumoxide = "0.2"
sha2 = "0.10"
base64 = "0.22"
crossterm = "0.28"
clap = { version = "4.5", features = ["derive", "env"] }
anyhow = "1"
uuid = { version = "1", features = ["v4"] }
rpassword = "7"
