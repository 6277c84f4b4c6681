[package]
name = "autosync"
version = "0.1.0"
edition = "2021"
publish = false

[dependencies]
clap = { version = "=4.6.7", features = ["derive"] }
git2 = { version = "=0.21.0", features = ["ssh"] }
notify = "=8.2.0"
notify-debouncer-full = "=0.7.0"
tracing = "=0.1.44"
