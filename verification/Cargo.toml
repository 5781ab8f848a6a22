[package]
name = "marcador"
version = "0.1.0"
edition = "2021"
publish = false

[dependencies]
itertools = "0.12"
colored = "2"
thiserror = "1"
serde = { version = "1", features = ["derive"] }
clap = { version = "4", features = ["derive"] }
toml = "0.8"
directories = "5"
dotenvy = "0.15"
open = "5"
copypasta = "0.10"
reqwest = { version = "0.11", default-features = false, features = ["blocking", "json"] }
actix-web = { version = "4", default-features = false, features = ["macros"] }
tokio = { version = "1", features = ["rt-multi-thread"] }
diesel = { version = "2", default-features = false, features = ["sqlite"] }
diesel_migrations = "2"
