[package]
name = "vesync"
version = "0.1.0"
edition = "2021"
publish = false

[dependencies]
attohttpc = { version = "*", default-features = false, features = ["json"] }
md5 = "*"
serde = { version = "*", features = ["derive"] }
