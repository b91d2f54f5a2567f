[package]
name = "p2p-walkie-talkie"
version = "0.1.0"
edition = "2021"
publish = false

[dependencies]
chrono = { version = "0.4", default-features = false, features = ["now"] }
clap = { version = "4", default-features = false, features = ["derive", "error-context", "help", "std", "usage"] }
colored = "2"
futures-util = "0.3"
libmdns = "*"
local-ip-address = "*"
mdns = "*"
serde = { version = "1", features = ["derive"] }
serde_json = "1"
thiserror = "1"
tokio = { version = "1", features = ["io-std", "io-util", "macros", "net", "rt-multi-thread", "signal", "sync", "time"] }
uuid = { version = "1", features = ["v4"] }
