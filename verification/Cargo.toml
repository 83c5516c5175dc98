[package]
name = "elm_dev"
version = "0.1.0"
edition = "2021"
publish = false

[dependencies]
actix-web = "4"
clap = { version = "4", features = ["derive"] }
notify = "*"
tokio = { version = "1", features = ["rt"] }
