[package]
name = "cm_launcher"
version = "0.1.0"
edition = "2021"
publish = false

[dependencies]
clap = { version = "*", features = ["derive"] }
flate2 = "*"
reqwest = { version = "*", default-features = false }
tar = "*"
tokio = { version = "*", features = ["macros", "rt-multi-thread"] }
