[package]
name = "dukenukemrust"
version = "0.1.0"
edition = "2021"
publish = false

[dependencies]
hound = "3.5"
midly = "0.5"
rand = "0.8"
rand_chacha = "0.3"
serde = { version = "1", features = ["derive"] }
bincode = "1.3"
