[package]
name = "retry"
version = "0.1.0"
edition = "2021"
publish = false

[dependencies]
clap = { version = "4", features = ["derive"] }
duration-string = "*"
tokio = { version = "1", features = ["macros", "rt-multi-thread", "process", "time"] }
