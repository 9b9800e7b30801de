[package]
name = "title_basics"
version = "0.1.0"
edition = "2021"
publish = false

[dependencies]
rocket_db_pools = { version = "*", features = ["sqlx_postgres"] }
