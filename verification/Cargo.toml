[package]
name = "blockbench_loader"
version = "0.1.0"
edition = "2021"
publish = false

[dependencies]
base64 = "=0.13.1"
png = "=0.16.8"
serde = { version = "1", features = ["derive"] }
serde_json = "1"
log = "0.4"
notify = "=4.0.18"
classicube-sys = "3"
