[package]
name = "soaricarus_api"
version = "0.1.0"
edition = "2021"
publish = false

[dependencies]
sqlx = { version = "0.9", default-features = false, features = ["postgres", "runtime-tokio", "uuid", "migrate"] }
uuid = "1"
