[package]
name = "rtfs"
version = "0.1.0"
edition = "2021"
publish = false

[dependencies]
base64 = "=0.23.1"
rand = "=0.10.3"
log = "*"
serde = { version = "*", features = ["derive"] }
dotenv = "*"
envy = "*"
fuse_mt = "=0.6.4"
reqwest = { version = "*", default-features = false, features = ["blocking", "json"] }
