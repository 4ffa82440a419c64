[package]
name = "libaur"
version = "0.1.0"
edition = "2021"
publish = false

[dependencies]
alpm = "*"
alpm-utils = "*"
bytes = "*"
htmlescape = "0.3"
kuchiki = "*"
reqwest = { version = "*", default-features = false }
rss = "*"
url = "*"
