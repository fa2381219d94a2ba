[package]
name = "verification_officer"
version = "0.1.0"
edition = "2021"
publish = false

[dependencies]
anyhow = "=1.0.104"
dotenvy = "=0.15.7"
futures = "=0.3.34"
sparkle-convenience = "=0.15.8"
thiserror = "=1.0.69"
tokio = { version = "=1.54.1", features = ["macros", "rt-multi-thread"] }
twilight-gateway = "=0.15.4"
twilight-http = "=0.15.4"
twilight-model = "=0.15.4"
twilight-util = { version = "=0.15.4", features = ["builder"] }
twilight-validate = "=0.15.3"
