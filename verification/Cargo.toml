[package]
name = "ele"
version = "0.1.0"
edition = "2021"
publish = false

[dependencies]
nix = { version = "*", features = ["signal", "term", "process", "fs"] }
pty-process = { version = "*", features = ["async"] }
tokio = { version = "*", features = ["macros", "rt", "process", "io-util", "io-std", "time", "sync", "net"] }
zbus = "*"
zbus_polkit = "*"
log = "*"
env_logger = "*"
argh = "*"
