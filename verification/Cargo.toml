[package]
name = "filechooser"
version = "0.1.0"
edition = "2021"
publish = false

[dependencies]
xdg-mime = "*"
mime = "*"
serde = { version = "*", features = ["derive"] }
