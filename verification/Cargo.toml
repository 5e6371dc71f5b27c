[package]
name = "rest_errors"
version = "0.1.0"
edition = "2021"
publish = false

[dependencies]
proc-macro2 = "1"
quote = "1"
syn = { version = "2", features = ["full"] }
http = "0.2"
serde = "1"
utoipa = { version = "4", default-features = false }
