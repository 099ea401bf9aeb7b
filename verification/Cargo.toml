[package]
name = "update_cdda"
version = "0.1.0"
edition = "2021"
publish = false

[dependencies]
regex = "1"
clap = { version = "4", features = ["derive"] }
curl = "0.4"
flate2 = "1"
fs_extra = "1"
home = "0.5"
ini = "1"
tar = "0.4"
zip = { version = "0.6", default-features = false, features = ["deflate"] }
