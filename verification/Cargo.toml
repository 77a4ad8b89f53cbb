[package]
name = "amazon-bestsellers"
version = "0.1.0"
edition = "2021"
publish = false

[dependencies]
clap = { version = "4", features = ["derive", "env"] }
config = { version = "*", default-features = false, features = ["toml"] }
csv = "1"
futures = "0.3"
serde = { version = "1", features = ["derive"] }
thirtyfour = "*"
tokio = { version = "1", features = ["macros", "rt-multi-thread", "time"] }
