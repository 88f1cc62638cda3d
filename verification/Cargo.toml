[package]
name = "rlog"
version = "0.1.0"
edition = "2021"
publish = false

[dependencies]
atty = "=0.2.14"
chrono = "=0.4.45"
log = { version = "=0.4.34", features = ["std"] }
once_cell = "=1.21.4"
queue = "=0.3.1"
termcolor = "=1.4.1"
