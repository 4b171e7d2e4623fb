[package]
name = "lilith_upload"
version = "0.1.0"
edition = "2021"
publish = false

[dependencies]
rand = "0.8"
serde = { version = "1", features = ["derive"] }
bytes = "1"
futures-util = "0.3"
mongodb = "2"
mongodb-gridfs = "*"
warp = "0.3"
tokio = { version = "1", features = ["macros", "rt-multi-thread", "fs"] }
ctrlc = "3"
mime_guess = "2"
