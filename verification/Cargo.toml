[package]
name = "sqlx_core"
version = "0.1.0"
edition = "2021"
publish = false

[dependencies]
either = "1"
futures-core = "0.3"
futures-util = "0.3"
