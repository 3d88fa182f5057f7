[package]
name = "dlsite_sync"
version = "0.1.0"
edition = "2021"
publish = false

[dependencies]
reqwest_cookie_store = "*"
reqwest = { version = "*", default-features = false, features = ["cookies"] }
tokio = { version = "*", default-features = false, features = ["rt", "macros"] }
zip-extract = "*"
unrar = "*"
