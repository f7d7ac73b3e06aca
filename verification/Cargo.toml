[package]
name = "jd_migrate"
version = "0.1.0"
edition = "2021"
publish = false

[dependencies]
bson = "2"
mysql = "*"
mongodb = { version = "3", features = ["sync"] }
config = "*"
serde = "1"
serde_derive = "1"
