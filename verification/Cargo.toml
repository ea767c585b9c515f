[package]
name = "vssh"
version = "0.3.0"
edition = "2021"
publish = false

[dependencies]
dirs = "*"
leg = "*"
reqwest = { version = "0.12", features = ["json", "native-tls"] }
serde = { version = "1", features = ["derive"] }
serde_json = "1"
structopt = "0.3"
tempfile = "3"
thiserror = "1"
tokio = { version = "1", features = ["macros", "rt-multi-thread"] }
url = "2"
whoami = "1"
