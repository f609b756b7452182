[package]
name = "mktemp"
version = "0.1.0"
edition = "2021"
publish = false

[dependencies]
uuid = { version = "=1.27.0", features = ["v4"] }
rustix = { version = "=1.1.5", features = ["fs", "net", "process"] }
remove_dir_all = "=1.0.0"
tempfile = "=3.27.0"
