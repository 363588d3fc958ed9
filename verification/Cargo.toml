[package]
name = "afterparty"
version = "0.1.0"
edition = "2021"
publish = false

[dependencies]
case = "*"
hex = "*"
ring = "*"
serde_json = "*"
hyper = { version = "0.12", default-features = false }
futures = "0.1"
log = "0.4"
