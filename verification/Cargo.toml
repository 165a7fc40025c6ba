[package]
name = "auto_konsole"
version = "0.1.0"
edition = "2021"
publish = false

[dependencies]
clap = { version = "*", features = ["derive"] }
futures = "*"
home = "*"
serde = { version = "*", features = ["derive"] }
sysinfo = "*"
tokio = { version = "*", features = ["macros", "rt-multi-thread"] }
toml = "*"
zbus = "*"
