[package]
name = "rotmg"
version = "0.1.0"
edition = "2021"
publish = false

[dependencies]
bimap = "=0.6.3"
bytes = "=0.4.12"
hex = "=0.4.3"
swf-parser = "=0.14.0"
failure = "=0.1.8"
failure_derive = "0.1"
futures = "=0.1.31"
tokio = "=0.1.22"
log = "=0.4.34"
serde = { version = "=1.0.229", features = ["derive"] }
serde_json = "=1.0.154"
structopt = "=0.2.18"
regex = "1"
lazy_static = "1"
tempfile = "3"
tar = "0.4"
libflate = "1"
