[package]
name = "file_transfer"
version = "0.1.0"
edition = "2021"
publish = false

[dependencies]
actix-multipart = "0.6"
actix-rt = "2"
actix-web = "4"
futures = "0.3"
sanitize-filename = "=0.2.1"
serde = { version = "1.0", features = ["derive"] }
