[package]
name = "xfercat"
version = "0.1.0"
edition = "2021"
publish = false

[dependencies]
bytes = "1"
crossterm = "0.29"
futures-util = "0.3"
glob = "0.3"
openssh = { version = "0.11", features = ["process-mux"] }
openssh-sftp-client = { version = "0.15", features = ["openssh"] }
ratatui = "*"
tokio = { version = "1", features = ["rt", "fs", "io-util", "time"] }

[dev-dependencies]
tempfile = "3"
