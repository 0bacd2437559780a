[package]
name = "jobcan_punch"
version = "0.1.0"
edition = "2021"
publish = false

[dependencies]
tokio = { version = "1", features = ["full"] }
thirtyfour = "*"
slack-morphism = { version = "*", features = ["hyper"] }
clap = { version = "4", features = ["derive"] }
color-eyre = "*"
dotenv = "*"
env_logger = "*"
log = "*"
