[package]
name = "builder_api"
version = "0.1.0"
edition = "2021"
publish = false

[dependencies]
rustc-serialize = "0.3"
serde_json = "1"
iron = "*"
router = "*"
bodyparser = "*"
persistent = "*"
