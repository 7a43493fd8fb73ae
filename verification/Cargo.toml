[package]
name = "fundoubler"
version = "0.1.0"
edition = "2021"
publish = false

[dependencies]
chrono = "0.4"
confy = "*"
dialoguer = "*"
humantime = "2"
itertools = "*"
md5 = "*"
multimap = "*"
regex = "1"
serde = { version = "1", features = ["derive"] }
sha2 = "0.10"
simple-log = "*"
structopt = "0.3"
walkdir = "2"
