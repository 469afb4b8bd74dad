[package]
name = "md_preview"
version = "0.1.0"
edition = "2021"
publish = false

[dependencies]
hyper = "0.12"
notify = "4"
pulldown-cmark = { version = "*", default-features = false, features = ["html"] }
sha2 = "0.8"
