[package]
name = "chat_broker"
version = "0.1.0"
edition = "2021"
publish = false

[dependencies]
actix = "=0.13.5"
actix-broker = "=0.4.4"
actix-web = { version = "=4.15.0", default-features = false, features = ["macros", "ws"] }
actix-web-actors = "=4.3.1"
log = "=0.4.34"
