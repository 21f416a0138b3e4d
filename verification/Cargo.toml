[package]
name = "transcoder"
version = "0.1.0"
edition = "2021"
publish = false

[dependencies]
json = "0.12"
rand = "0.8"
actix-web = { version = "4", default-features = false, features = ["macros"] }
actix-files = "0.6"
tokio = { version = "1", features = ["process", "io-util", "rt-multi-thread", "sync", "macros", "fs"] }
reqwest = { version = "0.11", default-features = false, features = ["json"] }
serde = { version = "1", features = ["derive"] }
utoipa = { version = "3", features = ["actix_extras"] }
