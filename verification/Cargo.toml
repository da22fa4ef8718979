[package]
name = "finance_lib"
version = "0.1.0"
edition = "2021"
publish = false

[dependencies]
axum = "0.6"
axum-auth = "0.4"
chrono = { version = "0.4", features = ["serde"] }
crossterm = "0.25"
diesel = { version = "2.0", features = ["mysql", "r2d2", "chrono"] }
once_cell = "1"
rs-snowflake = "*"
serde = { version = "1", features = ["derive"] }
tokio = { version = "1", features = ["full"] }
toml = "0.5"
tracing = "0.1"
tracing-subscriber = "0.3"
tui = "0.19"
