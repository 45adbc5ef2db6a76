[package]
name = "modality-trace-recorder-plugin"
version = "0.1.0"
edition = "2021"
publish = false

[dependencies]
trace-recorder-parser = "=0.19.0"
uuid = { version = "=1.29.0", features = ["v4"] }
hex = "=0.4.3"
byteordered = "=0.6.0"
auxon-sdk = { version = "=2.3.0", features = ["modality"] }
clap = { version = "=4.6.7", features = ["derive", "env"] }
tokio = { version = "=1.54.1", features = ["macros", "rt-multi-thread"] }
goblin = "*"
humantime = "*"
url = "=2.5.2"
dirs = "=4.0.0"
