[package]
name = "ecsact"
version = "0.1.0"
edition = "2021"
publish = false

[dependencies]
proc-macro2 = "1"
quote = "1"
syn = { version = "2", features = ["full"] }
json = "0.12"
serde = { version = "1", features = ["derive"] }
serde_json = "1"
pathdiff = "0.2"
bindgen = "0.69"
runfiles = "*"
