[package]
name = "pagetop"
version = "0.1.0"
edition = "2021"
publish = false

[dependencies]
maud = "=0.27.0"
serde = { version = "1", features = ["derive"] }
figlet-rs = "=1.0.0"
tracing-appender = "=0.2.5"
tracing-subscriber = { version = "=0.3.23", features = ["env-filter", "json"] }
tracing-unwrap = "*"
url = "=2.5.8"
actix-web = { version = "=4.18.1", default-features = false }
actix-files = "*"
actix-session = { version = "*", default-features = false }
actix-web-static-files = "*"
static-files = "*"
sea-orm = { version = "*", default-features = false }
