[package]
name = "recomp"
version = "0.1.0"
edition = "2021"
publish = false

[dependencies]
sqlx = { version = "0.8", default-features = false, features = ["postgres", "runtime-tokio", "migrate"] }
thiserror = "2"
tokio = { version = "1", features = ["time", "macros", "rt"] }
tokio-util = "0.7"
url = "2"
testcontainers-modules = { version = "*", features = ["postgres"] }
