[package]
name = "captive_portal"
version = "0.1.0"
edition = "2021"
publish = false

[dependencies]
serde_json = "1"
iron = "0.6"
iron-cors = "*"
mount = "*"
params = "*"
persistent = "*"
router = "*"
staticfile = "*"
