[package]
name = "tarkov"
version = "0.1.0"
edition = "2021"
publish = false

[dependencies]
err-derive = "0.2"
flate2 = "1.0"
http = "0.2"
hyper = "0.13"
hyper-tls = "0.4"
log = "0.4"
md5 = "0.7"
rand = "0.7"
serde = { version = "1.0", features = ["derive"] }
serde_json = "1.0"
serde_repr = "0.1"
