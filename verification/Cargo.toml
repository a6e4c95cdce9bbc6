[package]
name = "pi_panel"
version = "0.1.0"
edition = "2021"
publish = false

[dependencies]
serde = { version = "1", features = ["derive"] }
serde_json = "1"
actix-web = { version = "4", default-features = false, features = ["macros"] }
actix-files = "0.6"
structopt = "0.3"
systemstat = "0.2"
