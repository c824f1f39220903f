[package]
name = "lark_slack_core"
version = "0.1.0"
edition = "2021"
publish = false

[dependencies]
serde_json = "*"
urlencoding = "*"
uuid = { version = "*", features = ["v4"] }
serde = { version = "*", features = ["derive"] }
reqwest = { version = "*", default-features = false, features = ["json", "rustls-tls"] }
tokio = { version = "*", features = ["rt-multi-thread", "time", "macros"] }
open = "*"
which = "*"
dirs = "*"
