[package]
name = "koji"
version = "0.1.0"
edition = "2021"
publish = false

[dependencies]
geojson = "0.24"
serde = { version = "1", features = ["derive"] }
serde_json = "1"
sea-orm = { version = "0.10", default-features = false, features = ["macros", "with-json"] }
actix-web = "4"
actix-files = "0.6"
futures = "0.3"
map_3d = "0.1"
geo = "0.23"
log = "0.4"
env_logger = "0.10"
dotenv = "0.15"
