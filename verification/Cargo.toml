[package]
name = "pravda"
version = "0.1.0"
edition = "2021"
publish = false

[dependencies]
irc = { version = "=1.1.0", features = ["json_config"] }
futures-util = "0.3"
tokio = { version = "1", features = ["rt", "rt-multi-thread"] }
