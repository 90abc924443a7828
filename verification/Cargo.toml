[package]
name = "tuffi"
version = "0.1.0"
edition = "2021"
publish = false

[dependencies]
serde_json = { version = "=1.0.154", features = ["raw_value"] }
notify = "=8.2.0"
crossbeam-channel = "=0.5.17"
tao = "=0.37.2"
wry = "=0.57.1"
cocoa = "=0.27.0"
objc = "=0.2.7"
