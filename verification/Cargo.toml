[package]
name = "inventario"
version = "0.1.0"
edition = "2021"
publish = false

[dependencies]
actix-web = "4"
rand = "*"
serde = { version = "1", features = ["derive"] }
tera = "1"
