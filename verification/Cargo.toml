[package]
name = "purin"
version = "0.1.0"
edition = "2021"
publish = false

[dependencies]
home = "*"
termcolor = "*"
clap = { version = "*", features = ["derive"] }
tokio = { version = "*", features = ["macros", "rt-multi-thread", "process", "io-util"] }
reqwest = { version = "*", default-features = false }
