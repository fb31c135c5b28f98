[package]
name = "layertuber"
version = "0.1.0"
edition = "2021"
publish = false

[dependencies]
argparse = "=0.2.2"
dirs = "=4.0.0"
lazy_static = "=1.5.1"
log = "=0.4.35"
obs-wrapper = "=0.4.1"
serde = { version = "=1.0.229", features = ["derive"] }
serde_json = "=1.0.154"
serde-xml-rs = "=0.6.0"
serde_yaml = "=0.9.34"
subprocess = "=0.2.15"
three-d = "=0.13.0"
three-d-asset = { version = "=0.4.0", features = ["png"] }
zip = { version = "=0.6.6", default-features = false, features = ["deflate"] }
