[package]
name = "watchdog"
version = "0.1.0"
edition = "2021"
publish = false

[dependencies]
chrono = "*"
tasklist = "*"
term_cursor = "*"
tokio = { version = "*", features = ["rt-multi-thread", "time"] }
