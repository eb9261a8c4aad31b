[package]
name = "pyrust_task_id"
version = "0.1.0"
edition = "2021"
publish = false

[dependencies]
clap = { version = "4", features = ["derive"] }
log = "0.4"
regex = "1"
strfmt = "0.2"
